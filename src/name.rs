//! Checking untrusted file names before they are used as storage keys.
use vstd::prelude::*;

verus! {

broadcast use vstd::string::axiom_spec_iter;

/// A character that would let a name leave the content root.
pub open spec fn is_separator(c: char) -> bool {
    c == '/' || c == '\\'
}

/// A name that may be used as a storage key: non-empty and free of path separators.
pub open spec fn is_safe_name(s: Seq<char>) -> bool {
    &&& s.len() > 0
    &&& forall|i: int| 0 <= i < s.len() ==> !is_separator(#[trigger] s[i])
}

/// Why a name was refused.
#[derive(Debug, Clone, Copy, PartialEq, Eq, Structural)]
pub enum NameRejected {
    Empty,
    Separator,
}

/// The reason that `sanitize` gives for an unsafe name.
pub open spec fn rejection_of(s: Seq<char>) -> NameRejected {
    if s.len() == 0 {
        NameRejected::Empty
    } else {
        NameRejected::Separator
    }
}

/// A file name that has passed `sanitize`; the only way to build one.
pub struct SafeName {
    text: String,
}

impl View for SafeName {
    type V = Seq<char>;

    closed spec fn view(&self) -> Seq<char> {
        self.text@
    }
}

impl SafeName {
    #[verifier::type_invariant]
    spec fn inv(&self) -> bool {
        is_safe_name(self.text@)
    }

    pub fn as_str(&self) -> (r: &str)
        ensures
            r@ == self@,
            is_safe_name(r@),
    {
        proof {
            use_type_invariant(self);
        }
        self.text.as_str()
    }

    pub fn to_text(&self) -> (r: String)
        ensures
            r@ == self@,
            is_safe_name(r@),
    {
        proof {
            use_type_invariant(self);
        }
        self.text.clone()
    }

    pub fn duplicate(&self) -> (r: SafeName)
        ensures
            r@ == self@,
    {
        proof {
            use_type_invariant(self);
        }
        SafeName { text: self.text.clone() }
    }
}

/// Accepts `name` unchanged when it is safe; never rewrites it.
pub fn sanitize(name: &str) -> (r: Result<SafeName, NameRejected>)
    ensures
        r is Ok <==> is_safe_name(name@),
        r matches Ok(s) ==> s@ == name@,
        r matches Err(e) ==> e == rejection_of(name@),
{
    let mut seen_separator = false;
    for c in it: name.chars()
        invariant
            it.seq() == name@,
            seen_separator <==> exists|i: int| 0 <= i < it.index() && is_separator(#[trigger] name@[i]),
    {
        if c == '/' || c == '\\' {
            seen_separator = true;
        }
    }
    if name.is_empty() {
        Err(NameRejected::Empty)
    } else if seen_separator {
        Err(NameRejected::Separator)
    } else {
        Ok(SafeName { text: name.to_owned() })
    }
}

} // verus!
