//! Decoding of the position reports of a Septentrio GNSS receiver, and the
//! message types and helpers of the rover's ROS 2 nodes around it.
pub mod gps;
pub mod sbf;
pub mod error;
pub mod fetch;
pub mod maps;
pub mod find_aruco_with_pose;
