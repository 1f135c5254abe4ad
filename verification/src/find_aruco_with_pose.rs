//! The messages of the `custom_interfaces/action/FindArucoWithPose` ROS 2
//! action, as plain data: the goal, the result, and the requests and
//! responses that carry them.
//!
//! The type support of these messages (their registration with ROS 2, their
//! allocation in C and their sequences) lives in the generated C library of
//! the interface package and is bound by the application; the size bound of
//! the sequences is checked here.
#![allow(non_camel_case_types)]

use vstd::prelude::*;

verus! {

/// The `FindArucoWithPose` action.
#[derive(Clone, Copy, Debug)]
pub struct FindArucoWithPose;

/// The `SendGoal` service of the action.
#[derive(Clone, Copy, Debug)]
pub struct FindArucoWithPose_SendGoal;

/// The `GetResult` service of the action.
#[derive(Clone, Copy, Debug)]
pub struct FindArucoWithPose_GetResult;

/// The goal of the action; it carries no data.
#[derive(Clone, Copy, Debug, PartialEq, Eq, Structural)]
pub struct FindArucoWithPose_Goal {
    pub structure_needs_at_least_one_member: u8,
}

/// The result of the action; it carries no data.
#[derive(Clone, Copy, Debug, PartialEq, Eq, Structural)]
pub struct FindArucoWithPose_Result {
    pub structure_needs_at_least_one_member: u8,
}

/// The identifier of a goal (`unique_identifier_msgs/UUID`).
#[derive(Clone, Copy, Debug, PartialEq, Eq)]
pub struct GoalId {
    pub uuid: [u8; 16],
}

/// A point in time (`builtin_interfaces/Time`).
#[derive(Clone, Copy, Debug, PartialEq, Eq, Structural)]
pub struct Stamp {
    pub sec: i32,
    pub nanosec: u32,
}

/// Request of the `SendGoal` service: a goal and its identifier.
#[derive(Clone, Copy, Debug, PartialEq, Eq)]
pub struct FindArucoWithPose_SendGoal_Request {
    pub goal_id: GoalId,
    pub goal: FindArucoWithPose_Goal,
}

/// Response of the `SendGoal` service: whether the goal was accepted, and
/// when.
#[derive(Clone, Copy, Debug, PartialEq, Eq, Structural)]
pub struct FindArucoWithPose_SendGoal_Response {
    pub accepted: bool,
    pub stamp: Stamp,
}

/// Request of the `GetResult` service: the identifier of a goal.
#[derive(Clone, Copy, Debug, PartialEq, Eq)]
pub struct FindArucoWithPose_GetResult_Request {
    pub goal_id: GoalId,
}

/// Response of the `GetResult` service: the status of the goal and its
/// result.
#[derive(Clone, Copy, Debug, PartialEq, Eq, Structural)]
pub struct FindArucoWithPose_GetResult_Response {
    pub status: u8,
    pub result: FindArucoWithPose_Result,
}

/// Whether a sequence of messages bounded to `max` elements (unbounded when
/// `max` is 0) may be created with `size` elements.
pub fn sequence_size_admissible(max: usize, size: usize) -> (admissible: bool)
    ensures
        admissible == (max == 0 || size <= max),
{
    max == 0 || size <= max
}

impl FindArucoWithPose {
    /// The `SendGoal` request for `goal` under the identifier `uuid`.
    pub fn new_goal_request(goal: FindArucoWithPose_Goal, uuid: [u8; 16]) -> (request:
        FindArucoWithPose_SendGoal_Request)
        ensures
            request == (FindArucoWithPose_SendGoal_Request { goal_id: GoalId { uuid }, goal }),
    {
        FindArucoWithPose_SendGoal_Request { goal, goal_id: GoalId { uuid } }
    }

    /// The `GetResult` response with `status` and `result`.
    pub fn new_result_response(status: u8, result: FindArucoWithPose_Result) -> (response:
        FindArucoWithPose_GetResult_Response)
        ensures
            response == (FindArucoWithPose_GetResult_Response { status, result }),
    {
        FindArucoWithPose_GetResult_Response { status, result }
    }
}

impl FindArucoWithPose_SendGoal_Request {
    /// The identifier of the goal.
    pub fn get_uuid(&self) -> (uuid: &[u8; 16])
        ensures
            *uuid == self.goal_id.uuid,
    {
        &self.goal_id.uuid
    }
}

impl FindArucoWithPose_GetResult_Request {
    /// The identifier of the goal.
    pub fn get_uuid(&self) -> (uuid: &[u8; 16])
        ensures
            *uuid == self.goal_id.uuid,
    {
        &self.goal_id.uuid
    }
}

impl FindArucoWithPose_SendGoal_Response {
    /// The response that accepts or refuses a goal at `stamp`.
    pub fn new(accepted: bool, stamp: Stamp) -> (response: Self)
        ensures
            response == (FindArucoWithPose_SendGoal_Response { accepted, stamp }),
    {
        FindArucoWithPose_SendGoal_Response { accepted, stamp }
    }

    /// Whether the goal was accepted.
    pub fn is_accepted(&self) -> (accepted: bool)
        ensures
            accepted == self.accepted,
    {
        self.accepted
    }

    /// When the goal was accepted or refused.
    pub fn get_time_stamp(&self) -> (stamp: Stamp)
        ensures
            stamp == self.stamp,
    {
        Stamp { sec: self.stamp.sec, nanosec: self.stamp.nanosec }
    }
}

impl FindArucoWithPose_GetResult_Response {
    /// The status of the goal.
    pub fn get_status(&self) -> (status: u8)
        ensures
            status == self.status,
    {
        self.status
    }
}

} // verus!
