//! The identity tag of a single test.

use vstd::prelude::*;
use vstd::std_specs::cmp::PartialEqSpecImpl;
use vstd::string::*;
use vstd::utf8::*;

verus! {

/// Identity of one test: its qualified name and, where one applies, the
/// configuration label under which the test is active.
///
/// Both texts live as long as the program, so the tag is copied freely and
/// owns nothing.
#[derive(Copy, Clone, Debug)]
pub struct Metadata {
    pub target: &'static str,
    pub feature: Option<&'static str>,
}

/// What a [`Metadata`] stands for: the characters of its two texts.
pub struct MetadataView {
    pub target: Seq<char>,
    pub feature: Option<Seq<char>>,
}

impl MetadataView {
    /// The text shown for a test: the target alone, or the target followed by
    /// a space and the feature in parentheses.
    pub open spec fn rendering(self) -> Seq<char> {
        match self.feature {
            Some(feature) => self.target + " ("@ + feature + ")"@,
            None => self.target,
        }
    }
}

impl View for Metadata {
    type V = MetadataView;

    open spec fn view(&self) -> MetadataView {
        MetadataView {
            target: self.target@,
            feature: match self.feature {
                Some(feature) => Some(feature@),
                None => None,
            },
        }
    }
}

/// Whether two texts hold the same characters.
fn same_text(a: &str, b: &str) -> (same: bool)
    ensures
        same == (a@ == b@),
{
    let x = a.as_bytes();
    let y = b.as_bytes();
    if x.len() != y.len() {
        return false;
    }
    let mut i: usize = 0;
    while i < x.len()
        invariant
            i <= x.len(),
            x.len() == y.len(),
            x@ == encode_utf8(a@),
            y@ == encode_utf8(b@),
            forall|k: int| 0 <= k < i ==> x@[k] == y@[k],
        decreases x.len() - i,
    {
        if x[i] != y[i] {
            return false;
        }
        i += 1;
    }
    proof {
        // The bytes agree, and decoding them gives back the characters.
        assert(x@ =~= y@);
        encode_utf8_decode_utf8(a@);
        encode_utf8_decode_utf8(b@);
    }
    true
}

impl Metadata {
    /// Renders the tag as text.
    pub fn to_string(&self) -> (text: String)
        ensures
            text@ == self@.rendering(),
            self.feature is None ==> text@ == self.target@,
            self.feature matches Some(feature) ==> text@ == self.target@ + " ("@ + feature@ + ")"@,
    {
        let mut text = String::from_str(self.target);
        match self.feature {
            Some(feature) => {
                text.append(" (");
                text.append(feature);
                text.append(")");
            },
            None => {},
        }
        text
    }
}

impl PartialEq for Metadata {
    /// Two tags are equal when their targets hold the same characters and
    /// their features are both absent or hold the same characters.
    fn eq(&self, other: &Metadata) -> (same: bool) {
        same_text(self.target, other.target) && match (self.feature, other.feature) {
            (Some(a), Some(b)) => same_text(a, b),
            (None, None) => true,
            _ => false,
        }
    }
}

impl PartialEqSpecImpl for Metadata {
    open spec fn obeys_eq_spec() -> bool {
        true
    }

    open spec fn eq_spec(&self, other: &Metadata) -> bool {
        self@ == other@
    }
}

impl Eq for Metadata {

}

} // verus!
