//! Errors of connecting to the GPS, and the check of the device path.
use vstd::prelude::*;
use vstd::string::*;

verus! {

/// An error that can occur when connecting to the GPS. The paths are held as
/// text.
#[derive(Clone, Debug)]
pub enum GpsConnectionError {
    /// The GPS' serial output file representation was not found at the given
    /// location.
    FileNotFound(
        /// The given location.
        String,
    ),
    /// The GPS path exists, but opening it as a serial source failed.
    FailedToOpen(
        /// The given location.
        String,
        /// Details from the OS/driver stack.
        String,
    ),
}

impl GpsConnectionError {
    /// The text that describes the error.
    pub open spec fn spec_message(&self) -> Seq<char> {
        match self {
            GpsConnectionError::FileNotFound(path) => "The GPS' serial output file representation was not found at the given location: `"@
                + path@ + "`"@,
            GpsConnectionError::FailedToOpen(path, reason) => "Failed to open GPS source at `"@ + path@
                + "`: "@ + reason@,
        }
    }

    /// Describes the error for a person.
    pub fn to_string(&self) -> (text: String)
        ensures
            text@ == self.spec_message(),
    {
        match self {
            GpsConnectionError::FileNotFound(path) => {
                let mut text = String::from_str(
                    "The GPS' serial output file representation was not found at the given location: `",
                );
                text.append(path.as_str());
                text.append("`");
                text
            },
            GpsConnectionError::FailedToOpen(path, reason) => {
                let mut text = String::from_str("Failed to open GPS source at `");
                text.append(path.as_str());
                text.append("`: ");
                text.append(reason.as_str());
                text
            },
        }
    }
}

/// `needle` occurs in `hay` starting at index `start`.
pub open spec fn occurs_at(hay: Seq<char>, needle: Seq<char>, start: int) -> bool {
    0 <= start && start + needle.len() <= hay.len() && hay.subrange(start, start + needle.len()) == needle
}

/// `needle` occurs somewhere in `hay`.
pub open spec fn contains_text(hay: Seq<char>, needle: Seq<char>) -> bool {
    exists|start: int| occurs_at(hay, needle, start)
}

/// Text put between two others is found in the whole.
pub proof fn lemma_contains_text_between(before: Seq<char>, needle: Seq<char>, after: Seq<char>)
    ensures
        contains_text(before + needle + after, needle),
{
    let hay = before + needle + after;
    assert(hay.subrange(before.len() as int, before.len() + needle.len() as int) =~= needle);
    assert(occurs_at(hay, needle, before.len() as int));
}

/// Text longer than another is never found in it.
pub proof fn lemma_longer_text_not_contained(hay: Seq<char>, needle: Seq<char>)
    requires
        needle.len() > hay.len(),
    ensures
        !contains_text(hay, needle),
{
}

/// The description of an error names the path it is about, and, when
/// opening failed, the reason the system gave.
pub proof fn lemma_error_message_names_path(e: GpsConnectionError)
    ensures
        match e {
            GpsConnectionError::FileNotFound(path) => contains_text(e.spec_message(), path@),
            GpsConnectionError::FailedToOpen(path, reason) => contains_text(e.spec_message(), path@)
                && contains_text(e.spec_message(), reason@),
        },
{
    match e {
        GpsConnectionError::FileNotFound(path) => {
            let pre = "The GPS' serial output file representation was not found at the given location: `"@;
            lemma_contains_text_between(pre, path@, "`"@);
        },
        GpsConnectionError::FailedToOpen(path, reason) => {
            let pre = "Failed to open GPS source at `"@;
            lemma_contains_text_between(pre, path@, "`: "@ + reason@);
            assert(pre + path@ + ("`: "@ + reason@) =~= pre + path@ + "`: "@ + reason@);
            lemma_contains_text_between(pre + path@ + "`: "@, reason@, Seq::<char>::empty());
            assert(pre + path@ + "`: "@ + reason@ + Seq::<char>::empty() =~= pre + path@ + "`: "@ + reason@);
        },
    }
}

/// Whether `needle` occurs in `hay` at index `start`.
fn matches_at(hay: &str, hay_len: usize, needle: &str, needle_len: usize, start: usize) -> (found: bool)
    requires
        hay_len == hay@.len(),
        needle_len == needle@.len(),
        start + needle_len <= hay_len,
    ensures
        found == occurs_at(hay@, needle@, start as int),
{
    let mut k: usize = 0;
    while k < needle_len
        invariant
            hay_len == hay@.len(),
            needle_len == needle@.len(),
            start + needle_len <= hay_len,
            k <= needle_len,
            forall|j: int| 0 <= j < k ==> hay@[start + j] == needle@[j],
        decreases needle_len - k,
    {
        if hay.get_char(start + k) != needle.get_char(k) {
            assert(hay@.subrange(start as int, start + needle_len)[k as int] != needle@[k as int]);
            return false;
        }
        k = k + 1;
    }
    assert(hay@.subrange(start as int, start + needle_len) =~= needle@);
    true
}

/// Whether `needle` occurs in `hay`.
pub fn contains(hay: &str, needle: &str) -> (found: bool)
    ensures
        found == contains_text(hay@, needle@),
{
    let hay_len = hay.unicode_len();
    let needle_len = needle.unicode_len();
    if needle_len > hay_len {
        assert forall|start: int| !occurs_at(hay@, needle@, start) by {}
        return false;
    }
    let last = hay_len - needle_len;
    let mut start: usize = 0;
    loop
        invariant
            hay_len == hay@.len(),
            needle_len == needle@.len(),
            last == hay_len - needle_len,
            start <= last,
            forall|i: int| 0 <= i < start ==> !occurs_at(hay@, needle@, i),
        ensures
            forall|i: int| 0 <= i <= last ==> !occurs_at(hay@, needle@, i),
        decreases last - start,
    {
        if matches_at(hay, hay_len, needle, needle_len, start) {
            return true;
        }
        if start == last {
            break;
        }
        start = start + 1;
    }
    assert forall|i: int| !occurs_at(hay@, needle@, i) by {
        if 0 <= i <= last {
        }
    }
    false
}

/// Whether a GPS device path names the interface of a Septentrio USB device
/// that, on many mosaic-Go setups, carries no binary SBF output (that output
/// is on the `-if02` interface): the path names both `Septentrio_USB_Device`
/// and `-if04`.
pub fn names_non_sbf_interface(path: &str) -> (suspect: bool)
    ensures
        suspect == (contains_text(path@, "Septentrio_USB_Device"@) && contains_text(path@, "-if04"@)),
{
    contains(path, "Septentrio_USB_Device") && contains(path, "-if04")
}

} // verus!
