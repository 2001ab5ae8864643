pub mod model_traits;
pub mod runs;
