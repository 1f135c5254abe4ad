# soro_gps

Position reports of the rover's Septentrio GNSS receiver, and the small
pieces of logic of the ROS 2 nodes around it, as a Verus-verified library.

- `src/gps.rs`: pairing of `PVTGeodetic` position fixes with the covariance
  of `PosCovGeodetic` blocks (ENU reordering, time-of-week tolerance, fix
  status), with the laws that hold of it.
- `src/sbf.rs`: the SBF stream, decoded by the `libsbf` crate behind trusted
  wrappers, feeding the pairing; with the laws of a run of `feed` calls.
- `src/fetch.rs`: the decisions of the loop that waits for a reading.
- `src/error.rs`: connection errors and the device-path check.
- `src/maps.rs`: the JSON text and relay decisions of the maps backend.
- `src/find_aruco_with_pose.rs`: the messages of the `FindArucoWithPose`
  action.
- `app/`: the programs (serial and file I/O, clocks, ROS 2, WebSocket,
  floating-point conversions) and the C type support of the action.
