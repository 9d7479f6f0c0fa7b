//! A header given as one text, `name:value`, split at its first colon.
use vstd::prelude::*;
use vstd::string::{StrSliceExecFns, StringExecFns};

verus! {

/// The text that could not be read as a header.
#[derive(Debug, Clone, PartialEq)]
pub struct InvalidHeader(pub String);

impl InvalidHeader {
    /// The complaint about the text, for a reader.
    pub fn message(&self) -> (message: String)
        ensures
            message@ == "Invalid <header>:<name> => "@ + self.0@,
    {
        let mut message = String::new();
        message.append("Invalid <header>:<name> => ");
        message.append(self.0.as_str());
        assert(message@ =~= "Invalid <header>:<name> => "@ + self.0@);
        message
    }
}

/// The name and the value of a header.
#[derive(Debug, Clone, PartialEq, Eq)]
pub struct KeyValuePair(pub String, pub String);

/// That the first colon of `text` stands at `i`.
pub open spec fn is_first_colon(text: Seq<char>, i: int) -> bool {
    &&& 0 <= i < text.len()
    &&& text[i] == ':'
    &&& forall|j: int| 0 <= j < i ==> text[j] != ':'
}

/// Where the first colon of `text` stands, if it has one.
pub open spec fn first_colon(text: Seq<char>) -> Option<int> {
    if exists|i: int| is_first_colon(text, i) {
        Some(choose|i: int| is_first_colon(text, i))
    } else {
        None
    }
}

/// The name and the value that `text` gives: what stands before its first
/// colon and what stands after it, if there is a colon and neither is empty.
pub open spec fn parse_header(text: Seq<char>) -> Option<(Seq<char>, Seq<char>)> {
    match first_colon(text) {
        Some(i) => if 0 < i && i + 1 < text.len() {
            Some((text.take(i), text.skip(i + 1)))
        } else {
            None
        },
        None => None,
    }
}

/// A text has at most one first colon.
pub proof fn lemma_first_colon_unique(text: Seq<char>, i: int, j: int)
    requires
        is_first_colon(text, i),
        is_first_colon(text, j),
    ensures
        i == j,
        first_colon(text) == Some(i),
{
    if i < j {
        assert(text[i] != ':');
    }
    if j < i {
        assert(text[j] != ':');
    }
    let k = choose|k: int| is_first_colon(text, k);
    if k < i {
        assert(text[k] != ':');
    }
    if i < k {
        assert(text[i] != ':');
    }
}

impl KeyValuePair {
    /// Splits `input` at its first colon into a name and a value. A text
    /// without a colon, or with nothing before or after the first one, is
    /// handed back as invalid.
    pub fn try_from(input: &str) -> (result: Result<KeyValuePair, InvalidHeader>)
        ensures
            match result {
                Ok(pair) => parse_header(input@) == Some((pair.0@, pair.1@)),
                Err(invalid) => parse_header(input@) is None && invalid.0@ == input@,
            },
    {
        let len = input.unicode_len();
        let mut i: usize = 0;
        let mut found = false;
        while i < len && !found
            invariant
                i <= len,
                len == input@.len(),
                forall|j: int| 0 <= j < i ==> input@[j] != ':',
                found ==> i < len && input@[i as int] == ':',
            decreases len - i, (if found { 0int } else { 1int }),
        {
            if input.get_char(i) == ':' {
                found = true;
            } else {
                i += 1;
            }
        }
        proof {
            if i < len {
                lemma_first_colon_unique(input@, i as int, i as int);
            } else {
                assert forall|k: int| !is_first_colon(input@, k) by {
                    if 0 <= k < input@.len() {
                        assert(input@[k] != ':');
                    }
                }
            }
        }
        if i < len && 0 < i && i + 1 < len {
            let name = input.substring_char(0, i);
            let value = input.substring_char(i + 1, len);
            assert(name@ =~= input@.take(i as int));
            assert(value@ =~= input@.skip(i + 1));
            Ok(KeyValuePair(name.to_string(), value.to_string()))
        } else {
            Err(InvalidHeader(input.to_string()))
        }
    }
}

} // verus!
