//! Space escaping for query-string values: every space character becomes
//! `%20`; every other character is kept as it is.

use vstd::prelude::*;

verus! {

/// What one character contributes to the escaped form.
pub open spec fn escape_one(c: char) -> Seq<char> {
    if c == ' ' {
        seq!['%', '2', '0']
    } else {
        seq![c]
    }
}

/// The escaped form of a whole string: each space replaced by `%20`, all
/// other characters preserved, in order.
pub open spec fn escape_spaces(s: Seq<char>) -> Seq<char>
    decreases s.len(),
{
    if s.len() == 0 {
        Seq::empty()
    } else {
        escape_one(s[0]) + escape_spaces(s.drop_first())
    }
}

/// Escaping distributes over concatenation.
pub proof fn lemma_escape_spaces_add(a: Seq<char>, b: Seq<char>)
    ensures
        escape_spaces(a + b) == escape_spaces(a) + escape_spaces(b),
    decreases a.len(),
{
    if a.len() == 0 {
        assert(a + b =~= b);
        assert(escape_spaces(a) + escape_spaces(b) =~= escape_spaces(b));
    } else {
        assert((a + b).drop_first() =~= a.drop_first() + b);
        lemma_escape_spaces_add(a.drop_first(), b);
        assert(escape_spaces(a + b) =~= escape_spaces(a) + escape_spaces(b));
    }
}

proof fn lemma_escape_spaces_push(s: Seq<char>, c: char)
    ensures
        escape_spaces(s.push(c)) == escape_spaces(s) + escape_one(c),
{
    assert(s.push(c) =~= s + seq![c]);
    lemma_escape_spaces_add(s, seq![c]);
    assert(seq![c].drop_first() =~= Seq::<char>::empty());
    assert(escape_spaces(Seq::<char>::empty()) =~= Seq::<char>::empty());
    assert(seq![c][0] == c);
    assert(escape_spaces(seq![c]) =~= escape_one(c));
}

/// A string without spaces is left unchanged.
pub proof fn lemma_escape_spaces_id(s: Seq<char>)
    requires
        forall|i: int| 0 <= i < s.len() ==> s[i] != ' ',
    ensures
        escape_spaces(s) == s,
    decreases s.len(),
{
    if s.len() != 0 {
        lemma_escape_spaces_id(s.drop_first());
        assert(escape_spaces(s) =~= s);
    } else {
        assert(escape_spaces(s) =~= s);
    }
}

/// The escaped form never contains a space.
pub proof fn lemma_escape_spaces_no_space(s: Seq<char>)
    ensures
        forall|i: int| 0 <= i < escape_spaces(s).len() ==> escape_spaces(s)[i] != ' ',
    decreases s.len(),
{
    if s.len() != 0 {
        lemma_escape_spaces_no_space(s.drop_first());
        let head = escape_one(s[0]);
        let tail = escape_spaces(s.drop_first());
        assert(escape_spaces(s) == head + tail);
        assert forall|i: int| 0 <= i < escape_spaces(s).len() implies escape_spaces(s)[i]
            != ' ' by {
            if i < head.len() {
                assert(escape_spaces(s)[i] == head[i]);
            } else {
                assert(escape_spaces(s)[i] == tail[i - head.len()]);
            }
        }
    }
}

/// Replaces every space in `s` by `%20`.
pub fn escape_spaces_str(s: &str) -> (r: String)
    ensures
        r@ == escape_spaces(s@),
{
    let n = s.unicode_len();
    let mut out = String::new();
    let mut i: usize = 0;
    while i < n
        invariant
            i <= n,
            n == s@.len(),
            out@ == escape_spaces(s@.subrange(0, i as int)),
        decreases n - i,
    {
        let c = s.get_char(i);
        proof {
            lemma_escape_spaces_push(s@.subrange(0, i as int), s@[i as int]);
            assert(s@.subrange(0, i as int + 1) =~= s@.subrange(0, i as int).push(s@[i as int]));
        }
        if c == ' ' {
            proof {
                reveal_strlit("%20");
                assert("%20"@ =~= seq!['%', '2', '0']);
            }
            out.append("%20");
        } else {
            let piece = s.substring_char(i, i + 1);
            proof {
                assert(piece@ =~= seq![s@[i as int]]);
            }
            out.append(piece);
        }
        i = i + 1;
    }
    proof {
        assert(s@.subrange(0, n as int) =~= s@);
    }
    out
}

} // verus!
