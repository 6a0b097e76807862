//! # imagenex831l
//!
//! `imagenex831l` is a library for the data of IMAGENEX 831L sonar units: it reads and writes
//! the binary records of the instrument.
pub mod array;
pub mod error;
pub mod file;
pub mod io;
pub mod shot;
pub mod sonar_return;
pub mod switch_data;
pub mod types;

pub use array::Array;
pub use error::{Error, ErrorKind, Field, FormatError};
pub use file::FileMode;
pub use io::Reader;
pub use shot::Shot;
pub use sonar_return::SonarReturn;
pub use switch_data::SwitchData;
