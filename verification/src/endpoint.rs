//! The two well-known pipe endpoints of the relay.

use vstd::prelude::*;

verus! {

/// Which way the data of an endpoint flows, seen from the relay.
#[derive(Debug, Clone, Copy, PartialEq, Eq, Structural)]
pub enum Direction {
    /// The relay writes.
    Outbound,
    /// The relay reads.
    Inbound,
}

/// One of the relay's two endpoints. Both are fixed when the crate is built.
#[derive(Debug, Clone, Copy, PartialEq, Eq, Structural)]
pub enum PipeEndpoint {
    /// Carries frame payloads to the native process.
    Frames,
    /// Carries transform records from the native process.
    Transforms,
}

/// The address of the frame pipe.
pub const FRAME_PIPE_PATH: &'static str = "\\\\.\\pipe\\petplay-ipc-frames";

/// The address of the transform pipe.
pub const TRANSFORM_PIPE_PATH: &'static str = "\\\\.\\pipe\\petplay-ipc-transform";

impl PipeEndpoint {
    /// The direction of an endpoint.
    pub open spec fn spec_direction(self) -> Direction {
        match self {
            PipeEndpoint::Frames => Direction::Outbound,
            PipeEndpoint::Transforms => Direction::Inbound,
        }
    }

    /// The address of an endpoint.
    pub open spec fn spec_path(self) -> Seq<char> {
        match self {
            PipeEndpoint::Frames => FRAME_PIPE_PATH@,
            PipeEndpoint::Transforms => TRANSFORM_PIPE_PATH@,
        }
    }

    /// Which way the endpoint's data flows.
    pub fn direction(self) -> (d: Direction)
        ensures
            d == self.spec_direction(),
    {
        match self {
            PipeEndpoint::Frames => Direction::Outbound,
            PipeEndpoint::Transforms => Direction::Inbound,
        }
    }

    /// The path under which the endpoint is opened.
    pub fn path(self) -> (p: &'static str)
        ensures
            p@ == self.spec_path(),
    {
        match self {
            PipeEndpoint::Frames => FRAME_PIPE_PATH,
            PipeEndpoint::Transforms => TRANSFORM_PIPE_PATH,
        }
    }
}

} // verus!
