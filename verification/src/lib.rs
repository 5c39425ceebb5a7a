//! Client library for a college-football statistics web API: a typed model of
//! the API's endpoints, verified rendering of each endpoint into its relative
//! URL string, and a single authenticated GET against the fixed base host.

pub mod decimal;
pub mod endpoint;
pub mod escape;
pub mod records;
pub mod transport;

pub use decimal::u64_to_string;
pub use endpoint::Endpoint;
pub use endpoint::SeasonStatsParameters;
pub use endpoint::SeasonType;
pub use endpoint::StatCategory;
pub use escape::escape_spaces_str;
pub use records::Classification;
pub use records::Conference;
pub use records::PlayerStats;
pub use records::get_player_stats;
pub use transport::TransportError;
pub use transport::get_data;
