//! Diagnostics that a check hands to the reporting layer, each with the
//! fixes it suggests.

use vstd::prelude::*;

verus! {

/// A suggested remediation: a kind tag and a free-text description.
#[derive(Debug, Clone)]
pub struct Fix {
    pub fix_type: String,
    pub fix_thing: String,
}

/// A failure found by a check.
#[derive(Debug, Clone)]
pub struct Problem {
    pub check_name: String,
    pub code: String,
    pub message: String,
    pub fixes: Vec<Fix>,
}

/// What a caller reads of a `Problem`.
pub struct ProblemModel {
    pub check_name: Seq<char>,
    pub code: Seq<char>,
    pub message: Seq<char>,
    pub fixes: Seq<(Seq<char>, Seq<char>)>,
}

impl View for Fix {
    type V = (Seq<char>, Seq<char>);

    open spec fn view(&self) -> (Seq<char>, Seq<char>) {
        (self.fix_type@, self.fix_thing@)
    }
}

impl View for Problem {
    type V = ProblemModel;

    open spec fn view(&self) -> ProblemModel {
        ProblemModel {
            check_name: self.check_name@,
            code: self.code@,
            message: self.message@,
            fixes: self.fixes@.map_values(|f: Fix| f@),
        }
    }
}

impl Fix {
    pub fn new(fix_type: &str, fix_thing: String) -> (r: Fix)
        ensures
            r@ == (fix_type@, fix_thing@),
    {
        Fix { fix_type: String::from_str(fix_type), fix_thing }
    }
}

impl Problem {
    /// A problem with no fixes yet.
    pub fn new(check_name: &str, code: &str, message: String) -> (r: Problem)
        ensures
            r@ == (ProblemModel {
                check_name: check_name@,
                code: code@,
                message: message@,
                fixes: Seq::empty(),
            }),
    {
        let r = Problem {
            check_name: String::from_str(check_name),
            code: String::from_str(code),
            message,
            fixes: Vec::new(),
        };
        proof {
            assert(r.fixes@.map_values(|f: Fix| f@) =~= Seq::empty());
        }
        r
    }

    /// Appends a fix; the other fields and the fixes already there stay.
    pub fn add_fix(&mut self, fix: Fix)
        ensures
            final(self)@ == (ProblemModel { fixes: old(self)@.fixes.push(fix@), ..old(self)@ }),
    {
        self.fixes.push(fix);
        proof {
            assert(self.fixes@.map_values(|f: Fix| f@) =~= old(self)@.fixes.push(fix@));
        }
    }
}

} // verus!
