//! The record types of the format and the primitives they are built from.
pub mod acceleration;
pub mod angle;
pub mod command;
pub mod config;
pub mod data_bits;
pub mod data_length;
pub mod data_size_index;
pub mod direction;
pub mod file_header;
pub mod head_position;
pub mod logf;
pub mod mode;
pub mod motion_config;
pub mod motor_calibrate;
pub mod profile_grid;
pub mod primitive;
pub mod profile_point_detection;
pub mod range_code;
pub mod range_index;
pub mod range_table;
pub mod reverse;
pub mod sensor_available;
pub mod sensor_information;
pub mod sonar_return_header;
pub mod sonar_return_magic;
pub mod sonar_return_status;
pub mod sonar_type;
pub mod step_direction;
pub mod step_size;
pub mod transducer;
pub mod util;
pub mod zero;

pub use acceleration::Acceleration;
pub use angle::Angle;
pub use command::Command;
pub use config::Config;
pub use data_bits::DataBits;
pub use data_length::DataSizeIndex;
pub use data_size_index::DataPoints;
pub use direction::Direction;
pub use file_header::FileHeader;
pub use head_position::HeadPosition;
pub use logf::Logf;
pub use mode::Mode;
pub use motion_config::MotionConfig;
pub use motor_calibrate::MotorCalibrate;
pub use profile_grid::ProfileGrid;
pub use profile_point_detection::ProfilePointDetection;
pub use range_code::RangeCode;
pub use range_index::RangeIndex;
pub use range_table::RangeTable;
pub use reverse::Reverse;
pub use sensor_available::SensorAvailable;
pub use sensor_information::SensorInformation;
pub use sonar_return_header::SonarReturnHeader;
pub use sonar_return_magic::SonarReturnMagic;
pub use sonar_return_status::SonarReturnStatus;
pub use sonar_type::SonarType;
pub use step_direction::StepDirection;
pub use step_size::StepSize;
pub use transducer::Transducer;
pub use util::bytes::Endian;
pub use util::primitive::Primitive;
pub use zero::Zero;
