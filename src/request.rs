//! Incoming work requests: the command word and the kind of item they name.

use vstd::prelude::*;
use vstd::string::*;

verus! {

/// What a request asks the manipulator to do.
#[derive(Clone, Copy, Debug, PartialEq, Eq, Structural)]
pub enum Command {
    Pick,
    Place,
}

/// The family of item a request names, read from the item identifier's prefix.
#[derive(Clone, Copy, Debug, PartialEq, Eq, Structural)]
pub enum ItemKind {
    Gun,
    Box,
    Unknown,
}

/// One request as it arrives: the command word, the item identifier, and a
/// second identifier that holds the target location of a placement.
#[derive(Clone, Debug, PartialEq, Eq)]
pub struct WorkRequest {
    pub command: String,
    pub item: String,
    pub instance: String,
}

pub struct RequestView {
    pub command: Seq<char>,
    pub item: Seq<char>,
    pub instance: Seq<char>,
}

impl View for WorkRequest {
    type V = RequestView;

    open spec fn view(&self) -> RequestView {
        RequestView { command: self.command@, item: self.item@, instance: self.instance@ }
    }
}

/// An item and its instance, as a client names them when it submits a request.
#[derive(Clone, Debug, PartialEq, Eq)]
pub struct Item {
    pub type_: String,
    pub instance: String,
}

impl Item {
    /// The request that asks for `command` on this item.
    pub fn request(&self, command: &str) -> (r: WorkRequest)
        ensures
            r@ == (RequestView { command: command@, item: self.type_@, instance: self.instance@ }),
    {
        WorkRequest {
            command: String::from_str(command),
            item: self.type_.clone(),
            instance: self.instance.clone(),
        }
    }
}

pub open spec fn has_prefix(s: Seq<char>, p: Seq<char>) -> bool {
    p.len() <= s.len() && s.subrange(0, p.len() as int) == p
}

pub open spec fn command_of(word: Seq<char>) -> Option<Command> {
    if word == "pick"@ {
        Some(Command::Pick)
    } else if word == "place"@ {
        Some(Command::Place)
    } else {
        None
    }
}

pub open spec fn kind_of(item: Seq<char>) -> ItemKind {
    if has_prefix(item, "silver_gun"@) {
        ItemKind::Gun
    } else if has_prefix(item, "silver_box"@) {
        ItemKind::Box
    } else {
        ItemKind::Unknown
    }
}

/// Whether `s` begins with `p`, character by character.
pub fn starts_with(s: &str, p: &str) -> (r: bool)
    ensures
        r == has_prefix(s@, p@),
{
    let n = s.unicode_len();
    let m = p.unicode_len();
    if m > n {
        return false;
    }
    let mut i: usize = 0;
    while i < m
        invariant
            m == p@.len(),
            n == s@.len(),
            m <= n,
            i <= m,
            forall|j: int| 0 <= j < i ==> s@[j] == p@[j],
        decreases m - i,
    {
        if s.get_char(i) != p.get_char(i) {
            assert(s@.subrange(0, m as int)[i as int] != p@[i as int]);
            return false;
        }
        i = i + 1;
    }
    assert(s@.subrange(0, m as int) =~= p@);
    true
}

/// Whether two strings hold the same characters.
pub fn same_text(a: &str, b: &str) -> (r: bool)
    ensures
        r == (a@ == b@),
{
    if a.unicode_len() != b.unicode_len() {
        return false;
    }
    let r = starts_with(a, b);
    assert(a@ =~= a@.subrange(0, b@.len() as int));
    r
}

/// Reads the command word; any word but `pick` and `place` is unrecognised.
pub fn parse_command(word: &str) -> (r: Option<Command>)
    ensures
        r == command_of(word@),
{
    if same_text(word, "pick") {
        Some(Command::Pick)
    } else if same_text(word, "place") {
        Some(Command::Place)
    } else {
        None
    }
}

/// The kind of item an identifier names.
pub fn item_kind(item: &str) -> (r: ItemKind)
    ensures
        r == kind_of(item@),
{
    if starts_with(item, "silver_gun") {
        ItemKind::Gun
    } else if starts_with(item, "silver_box") {
        ItemKind::Box
    } else {
        ItemKind::Unknown
    }
}

} // verus!
