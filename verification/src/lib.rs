//! Convenience functions for drawing uniformly distributed random numbers:
//! single values or whole buffers, over a type's natural range or a range
//! the caller gives, with inclusive, exclusive or unordered bounds, and
//! with a caller-supplied generator or a fresh thread-local one.

mod bounded;
mod builder;
mod random_fill_functions;
mod random_functions;
mod ranged;
mod rng;
mod sample;

pub use bounded::Bounded;
pub use builder::ArgExpr;
pub use builder::FillCall;
pub use builder::RandomBuilder;
pub use builder::RandomFillBuilder;
pub use builder::SamplerCall;
pub use builder::SyntaxError;
pub use ranged::Boundary;
pub use ranged::ValueRange;
pub use sample::Sample;
pub use random_fill_functions::random_fill;
pub use random_fill_functions::random_fill_at_least;
pub use random_fill_functions::random_fill_at_least_with_rng;
pub use random_fill_functions::random_fill_at_most;
pub use random_fill_functions::random_fill_at_most_exclusively;
pub use random_fill_functions::random_fill_at_most_exclusively_with_rng;
pub use random_fill_functions::random_fill_at_most_with_rng;
pub use random_fill_functions::random_fill_exclusively;
pub use random_fill_functions::random_fill_exclusively_with_rng;
pub use random_fill_functions::random_fill_inclusively;
pub use random_fill_functions::random_fill_inclusively_cmp;
pub use random_fill_functions::random_fill_inclusively_cmp_with_rng;
pub use random_fill_functions::random_fill_inclusively_with_rng;
pub use random_fill_functions::random_fill_ranged;
pub use random_fill_functions::random_fill_ranged_with_rng;
pub use random_fill_functions::random_fill_with_rng;
pub use random_functions::lemma_within_unordered_symmetric;
pub use random_functions::within_unordered;
pub use random_functions::random;
pub use random_functions::random_at_least;
pub use random_functions::random_at_least_with_rng;
pub use random_functions::random_at_most;
pub use random_functions::random_at_most_exclusively;
pub use random_functions::random_at_most_exclusively_with_rng;
pub use random_functions::random_at_most_with_rng;
pub use random_functions::random_exclusively;
pub use random_functions::random_exclusively_with_rng;
pub use random_functions::random_inclusively;
pub use random_functions::random_inclusively_cmp;
pub use random_functions::random_inclusively_cmp_with_rng;
pub use random_functions::random_inclusively_with_rng;
pub use random_functions::random_ranged;
pub use random_functions::random_ranged_with_rng;
pub use random_functions::random_with_rng;
