//! Named targets: a policy together with the format to convert to, looked up
//! by name.

use vstd::prelude::*;

use crate::text::same_chars;
use crate::validation::FormatSpec;

verus! {

/// What a non-compliant dimension is converted to.
pub struct DefaultFormat {
    pub audio: String,
    pub video: String,
    pub pix_fmt: String,
}

/// A named policy and its conversion target.
pub struct Target {
    pub name: String,
    pub format_spec: FormatSpec,
    pub default: DefaultFormat,
}

/// The targets that were configured, and the one to use when none is named.
pub struct Config {
    pub default_target: String,
    pub targets: Vec<Target>,
}

/// No configured target carries the requested name.
pub struct TargetNotFound {
    pub requested: String,
}

/// `i` is the position of the first target named `name`.
pub open spec fn is_first_named(targets: Seq<Target>, name: Seq<char>, i: int) -> bool {
    &&& 0 <= i < targets.len()
    &&& targets[i].name@ == name
    &&& forall|j: int| 0 <= j < i ==> targets[j].name@ != name
}

/// Whether some target is named `name`.
pub open spec fn has_target(targets: Seq<Target>, name: Seq<char>) -> bool {
    exists|i: int| 0 <= i < targets.len() && targets[i].name@ == name
}

impl Config {
    /// The first target whose name is exactly `requested_target`.
    pub fn find_target(&self, requested_target: &str) -> (r: Result<&Target, TargetNotFound>)
        ensures
            r is Ok <==> has_target(self.targets@, requested_target@),
            match r {
                Ok(t) => exists|i: int|
                    is_first_named(self.targets@, requested_target@, i) && *t == self.targets@[i],
                Err(e) => e.requested@ == requested_target@,
            },
    {
        let mut i: usize = 0;
        while i < self.targets.len()
            invariant
                i <= self.targets@.len(),
                forall|j: int| 0 <= j < i ==> self.targets@[j].name@ != requested_target@,
            decreases self.targets@.len() - i,
        {
            if same_chars(self.targets[i].name.as_str(), requested_target) {
                assert(is_first_named(self.targets@, requested_target@, i as int));
                return Ok(&self.targets[i]);
            }
            i = i + 1;
        }
        let requested = requested_target.to_string();
        proof {
            broadcast use vstd::string::group_string_axioms;

            assert(requested@ == requested_target@);
        }
        Err(TargetNotFound { requested })
    }
}

} // verus!
