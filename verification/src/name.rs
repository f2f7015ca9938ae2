//! The closed set of init package names and their textual forms.

use crate::error::Error;
use crate::id::PackageId;
use crate::metadata::{init_id, init_package_ids};
use vstd::prelude::*;

verus! {

/// All init package names are registered in this enum.
///
/// The order of the variants is the enumeration order: package ids are
/// handed out in it.
#[derive(Debug, Clone, Copy, PartialEq, Eq, Hash, Structural)]
pub enum Name {
    Json,
    JsPy,
}

/// Number of registered names.
pub const NAME_COUNT: usize = 2;

/// The name at position `i` of the enumeration order.
pub open spec fn name_at(i: int) -> Name {
    if i == 0 {
        Name::Json
    } else {
        Name::JsPy
    }
}

impl Name {
    /// Position of the name in the enumeration order.
    pub open spec fn position(self) -> int {
        match self {
            Name::Json => 0,
            Name::JsPy => 1,
        }
    }

    /// The stable serialized form: lower case, words separated by underscores.
    pub open spec fn snake_case(self) -> Seq<char> {
        match self {
            Name::Json => "json"@,
            Name::JsPy => "js_py"@,
        }
    }

    /// Position of the name in the enumeration order.
    pub fn index(self) -> (i: usize)
        ensures
            i == self.position(),
            i < NAME_COUNT,
    {
        match self {
            Name::Json => 0,
            Name::JsPy => 1,
        }
    }

    /// The name at a position of the enumeration order, if there is one.
    pub fn from_index(i: usize) -> (r: Option<Name>)
        ensures
            i < NAME_COUNT ==> r == Some(name_at(i as int)),
            i >= NAME_COUNT ==> r is None,
    {
        if i == 0 {
            Some(Name::Json)
        } else if i == 1 {
            Some(Name::JsPy)
        } else {
            None
        }
    }

    /// The name as it is displayed: its JSON text, which is the serialized
    /// form between double quotes.
    pub fn to_string(&self) -> (text: String)
        ensures
            text@ == quoted(self.snake_case()),
    {
        let s = self.as_str();
        proof {
            reveal_strlit("json");
            reveal_strlit("js_py");
        }
        match to_json_text(s) {
            Some(text) => text,
            None => vstd::pervasive::unreached(),
        }
    }

    /// The id of the package.
    ///
    /// Every registered name has one, so the lookup never fails.
    pub fn id(self) -> (r: Result<PackageId, Error>)
        ensures
            r == Ok::<PackageId, Error>(init_id(self)),
    {
        let ids = init_package_ids();
        match ids.get(&self) {
            Some(id) => Ok(*id),
            None => Err(Error::UnknownPackage(self)),
        }
    }

    /// The stable serialized form of the name.
    pub fn as_str(&self) -> (s: &'static str)
        ensures
            s@ == self.snake_case(),
    {
        match self {
            Name::Json => "json",
            Name::JsPy => "js_py",
        }
    }
}

/// Whether a string holds none of the characters that JSON writes as escapes:
/// the double quote, the backslash and the control characters below the space.
pub open spec fn is_plain(s: Seq<char>) -> bool {
    forall|i: int| 0 <= i < s.len() ==> s[i] != '"' && s[i] != '\\' && #[trigger] s[i] as u32 >= 0x20
}

/// The JSON text of a plain string: the string itself between double quotes.
pub open spec fn quoted(s: Seq<char>) -> Seq<char> {
    seq!['"'] + s + seq!['"']
}

/// Calls `serde_json::to_string` on a string slice.
///
/// The serializer writes a double quote, the string with an escape in place
/// of each double quote, backslash and control character, and a double quote
/// again; the contract is limited to strings that hold none of those, and
/// says that the text is then the string between two double quotes. The text
/// is written to a vector in memory, and serialization fails only where the
/// value refuses to be serialized or a map has a key that is no string, so a
/// string slice is always serialized.
#[verifier::external_body]
fn to_json_text(s: &str) -> (r: Option<String>)
    requires
        is_plain(s@),
    ensures
        r is Some,
        r matches Some(text) ==> text@ == quoted(s@),
{
    serde_json::to_string(s).ok()
}

/// Position and name determine each other.
pub proof fn lemma_position_roundtrip(n: Name)
    ensures
        0 <= n.position() < NAME_COUNT,
        name_at(n.position()) == n,
{
}

} // verus!
