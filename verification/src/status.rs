//! The lifecycle status of a workspace.

use vstd::prelude::*;

verus! {

/// The four states a workspace can be in. Any state may follow any other.
#[derive(Clone, Copy, Debug, PartialEq, Eq, Structural)]
pub enum Status {
    Inactive,
    Active,
    Expired,
    Provisioning,
}

impl Status {
    /// The symbolic name under which the status travels in request and
    /// response bodies.
    pub open spec fn name_spec(self) -> Seq<char> {
        match self {
            Status::Inactive => "Inactive"@,
            Status::Active => "Active"@,
            Status::Expired => "Expired"@,
            Status::Provisioning => "Provisioning"@,
        }
    }

    /// The status that a token names, if it names one. Names are matched
    /// exactly, letter case included.
    pub open spec fn from_name_spec(token: Seq<char>) -> Option<Status> {
        if token == "Inactive"@ {
            Some(Status::Inactive)
        } else if token == "Active"@ {
            Some(Status::Active)
        } else if token == "Expired"@ {
            Some(Status::Expired)
        } else if token == "Provisioning"@ {
            Some(Status::Provisioning)
        } else {
            None
        }
    }

    /// The symbolic name of the status.
    pub fn name(&self) -> (r: &'static str)
        ensures
            r@ == self.name_spec(),
    {
        match self {
            Status::Inactive => "Inactive",
            Status::Active => "Active",
            Status::Expired => "Expired",
            Status::Provisioning => "Provisioning",
        }
    }

    /// Reads a status from its symbolic name. Any other token is refused.
    pub fn from_name(token: &str) -> (r: Option<Status>)
        ensures
            r == Status::from_name_spec(token@),
    {
        let t = token.to_owned();
        if t == "Inactive".to_owned() {
            Some(Status::Inactive)
        } else if t == "Active".to_owned() {
            Some(Status::Active)
        } else if t == "Expired".to_owned() {
            Some(Status::Expired)
        } else if t == "Provisioning".to_owned() {
            Some(Status::Provisioning)
        } else {
            None
        }
    }

    /// Every status is read back from its own name.
    pub proof fn lemma_name_round_trip(s: Status)
        ensures
            Status::from_name_spec(s.name_spec()) == Some(s),
    {
        reveal_strlit("Inactive");
        reveal_strlit("Active");
        reveal_strlit("Expired");
        reveal_strlit("Provisioning");
        assert("Inactive"@.len() == 8);
        assert("Active"@.len() == 6);
        assert("Expired"@.len() == 7);
        assert("Provisioning"@.len() == 12);
    }
}

} // verus!
