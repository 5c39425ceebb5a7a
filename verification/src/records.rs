//! Domain records decoded from API responses. The decoding itself happens
//! outside this library; these are the plain shapes it targets. Fields that
//! smaller entities omit on the wire are optional rather than defaulted, so
//! an unknown value is never mistaken for an empty one.

use vstd::prelude::*;

use crate::endpoint::StatCategory;

verus! {

/// The division a school plays in, a closed enumeration. On the wire it is
/// spelled in lowercase; `wire_token` gives that spelling.
#[derive(Clone, Copy, PartialEq, Eq, Debug)]
pub enum Classification {
    Fbs,
    Fcs,
    II,
    III,
}

/// The lowercase wire spelling of a classification.
pub open spec fn classification_token(c: Classification) -> Seq<char> {
    match c {
        Classification::Fbs => "fbs"@,
        Classification::Fcs => "fcs"@,
        Classification::II => "ii"@,
        Classification::III => "iii"@,
    }
}

impl Classification {
    /// The lowercase spelling this classification has on the wire.
    pub fn wire_token(&self) -> (r: &'static str)
        ensures
            r@ == classification_token(*self),
    {
        match self {
            Classification::Fbs => "fbs",
            Classification::Fcs => "fcs",
            Classification::II => "ii",
            Classification::III => "iii",
        }
    }
}

/// Summary data for one conference.
#[derive(PartialEq, Debug)]
pub struct Conference {
    pub id: u32,
    pub name: String,
    pub short_name: String,
    pub abbreviation: Option<String>,
    pub classification: Classification,
}

/// One statistic recorded by one player over a season.
#[derive(PartialEq, Debug)]
pub struct PlayerStats {
    pub player_id: String,
    pub player: String,
    pub team: String,
    pub conference: String,
    pub category: StatCategory,
    pub stat_type: String,
    pub stat: String,
}

/// Keeps, in order, exactly the statistics that belong to the player with
/// the given name.
pub fn get_player_stats(stats: Vec<PlayerStats>, name: &str) -> (r: Vec<PlayerStats>)
    ensures
        r@ == stats@.filter(|ps: PlayerStats| ps.player@ == name@),
{
    let ghost orig = stats@;
    let ghost pred = |ps: PlayerStats| ps.player@ == name@;
    let name_string = String::from_str(name);
    let mut input = stats;
    let mut out: Vec<PlayerStats> = Vec::new();
    proof {
        assert(orig.subrange(0, 0).filter(pred) =~= Seq::<PlayerStats>::empty()) by {
            reveal(Seq::filter);
        }
        assert(input@ =~= orig.subrange(0, orig.len() as int));
    }
    #[verifier::loop_isolation(false)]
    while input.len() > 0
        invariant
            input.len() <= orig.len(),
            input@ == orig.subrange(orig.len() - input.len(), orig.len() as int),
            out@ == orig.subrange(0, orig.len() - input.len()).filter(pred),
            name_string@ == name@,
        decreases input.len(),
    {
        let ghost k: int = orig.len() - input.len();
        let ghost input_before = input@;
        let item = input.remove(0);
        proof {
            assert(item == input_before[0]);
            assert(input_before[0] == orig.subrange(k, orig.len() as int)[0]);
            assert(item == orig[k]);
            assert(input@ =~= input_before.remove(0));
            assert(input@ =~= orig.subrange(k + 1, orig.len() as int));
        }
        let ghost item_snap = item;
        if item.player == name_string {
            out.push(item);
            proof {
                reveal(Seq::filter);
                assert(pred(item_snap));
                assert(orig.subrange(0, k + 1).drop_last() =~= orig.subrange(0, k));
                assert(orig.subrange(0, k + 1).last() == item_snap);
                assert(out@ =~= orig.subrange(0, k + 1).filter(pred));
            }
        } else {
            proof {
                reveal(Seq::filter);
                assert(!pred(item_snap));
                assert(orig.subrange(0, k + 1).drop_last() =~= orig.subrange(0, k));
                assert(orig.subrange(0, k + 1).last() == item_snap);
                assert(out@ =~= orig.subrange(0, k + 1).filter(pred));
            }
        }
    }
    proof {
        assert(orig.subrange(0, orig.len() as int) =~= orig);
    }
    out
}

} // verus!
