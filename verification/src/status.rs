//! The kinds of message a run can send, and their names on the wire.

use vstd::prelude::*;

verus! {

/// The kind of a message sent to the controller.
#[derive(Clone, Copy, Debug, PartialEq, Eq, Structural)]
pub enum Status {
    Idle,
    Start,
    Processing,
    Intermediate,
    Finished,
    Error,
}

impl Status {
    /// The lowercase name that stands for this kind on the wire.
    pub open spec fn wire(self) -> Seq<char> {
        match self {
            Status::Idle => "idle"@,
            Status::Start => "start"@,
            Status::Processing => "processing"@,
            Status::Intermediate => "intermediate"@,
            Status::Finished => "finished"@,
            Status::Error => "error"@,
        }
    }

    /// A terminal message closes the protocol of a run.
    pub open spec fn terminal(self) -> bool {
        self == Status::Finished || self == Status::Error
    }

    /// Progress messages may be sent any number of times while a run is open.
    pub open spec fn progress(self) -> bool {
        self == Status::Processing || self == Status::Intermediate
    }

    /// Opening messages come before any progress message.
    pub open spec fn opening(self) -> bool {
        self == Status::Idle || self == Status::Start
    }

    pub fn as_str(&self) -> (name: &'static str)
        ensures
            name@ == self.wire(),
    {
        match self {
            Status::Idle => "idle",
            Status::Start => "start",
            Status::Processing => "processing",
            Status::Intermediate => "intermediate",
            Status::Finished => "finished",
            Status::Error => "error",
        }
    }

    pub fn to_string(&self) -> (name: String)
        ensures
            name@ == self.wire(),
    {
        String::from_str(self.as_str())
    }

    pub fn is_terminal(&self) -> (b: bool)
        ensures
            b == self.terminal(),
    {
        match self {
            Status::Finished | Status::Error => true,
            _ => false,
        }
    }
}

/// Two kinds with the same wire name are the same kind, so a controller can
/// tell every kind apart by its name.
pub proof fn wire_names_distinct(a: Status, b: Status)
    requires
        a.wire() == b.wire(),
    ensures
        a == b,
{
    reveal_strlit("idle");
    reveal_strlit("start");
    reveal_strlit("processing");
    reveal_strlit("intermediate");
    reveal_strlit("finished");
    reveal_strlit("error");
    assert("idle"@.len() == 4);
    assert("start"@.len() == 5 && "start"@[0] == 's');
    assert("processing"@.len() == 10);
    assert("intermediate"@.len() == 12);
    assert("finished"@.len() == 8);
    assert("error"@.len() == 5 && "error"@[0] == 'e');
}

} // verus!
