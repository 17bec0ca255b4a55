use vstd::prelude::*;

verus! {

/// The gesture labels that the machine tells apart; every other label counts as `Other`.
#[derive(Clone, Copy, Debug, PartialEq, Eq, Structural)]
pub enum Gesture {
    OpenPalm,
    ClosedFist,
    Other,
}

/// The gesture that a classifier label stands for.
pub open spec fn gesture_of(label: Seq<char>) -> Gesture {
    if label == "open_palm"@ {
        Gesture::OpenPalm
    } else if label == "closed_fist"@ {
        Gesture::ClosedFist
    } else {
        Gesture::Other
    }
}

/// Whether two strings hold the same characters.
fn same_chars(s: &str, t: &str) -> (r: bool)
    ensures
        r == (s@ == t@),
{
    let n = s.unicode_len();
    if n != t.unicode_len() {
        return false;
    }
    let mut i: usize = 0;
    while i < n
        invariant
            n == s@.len(),
            n == t@.len(),
            i <= n,
            forall|j: int| 0 <= j < i ==> s@[j] == t@[j],
        decreases n - i,
    {
        if s.get_char(i) != t.get_char(i) {
            return false;
        }
        i = i + 1;
    }
    assert(s@ =~= t@);
    true
}

impl Gesture {
    /// Reads a classifier label: `"open_palm"`, `"closed_fist"`, or anything else.
    pub fn from_label(label: &str) -> (g: Gesture)
        ensures
            g == gesture_of(label@),
    {
        if same_chars(label, "open_palm") {
            Gesture::OpenPalm
        } else if same_chars(label, "closed_fist") {
            Gesture::ClosedFist
        } else {
            Gesture::Other
        }
    }
}

} // verus!
