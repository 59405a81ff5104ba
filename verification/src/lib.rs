pub mod archive;
pub mod calc;
pub mod clock;
pub mod number;
pub mod percent;
pub mod service;
pub mod tabular;
pub mod text;
pub mod timeline;
pub mod util;
