//! Reading what the container runtime prints, and the order in which a
//! compose file lists the environment of an agent.

use crate::text::{trim, trimmed};
use vstd::prelude::*;
use vstd::string::*;

verus! {

/// The identifiers found when scanning `s` from position `i`, the piece
/// under way having started at `start`: every non-empty stretch between two
/// line breaks, in order.
pub open spec fn ids_from(s: Seq<char>, start: int, i: int) -> Seq<Seq<char>>
    decreases s.len() - i,
{
    if i >= s.len() {
        if start < s.len() {
            seq![s.subrange(start, s.len() as int)]
        } else {
            Seq::<Seq<char>>::empty()
        }
    } else if s[i] == '\n' {
        if start < i {
            seq![s.subrange(start, i)] + ids_from(s, i + 1, i + 1)
        } else {
            ids_from(s, i + 1, i + 1)
        }
    } else {
        ids_from(s, start, i + 1)
    }
}

/// The container identifiers in a listing that holds one per line: the
/// non-empty lines of the listing once the white space around it is gone.
pub open spec fn listed_ids(listing: Seq<char>) -> Seq<Seq<char>> {
    ids_from(trimmed(listing), 0, 0)
}

/// The texts of a sequence of strings.
pub open spec fn texts(items: Seq<String>) -> Seq<Seq<char>> {
    items.map_values(|s: String| s@)
}

/// The container identifiers in a listing that holds one per line, in the
/// order in which they are to be removed.
pub fn container_ids(listing: &str) -> (r: Vec<String>)
    ensures
        texts(r@) == listed_ids(listing@),
{
    let s = trim(listing);
    let n: usize = s.unicode_len();
    let mut ids: Vec<String> = Vec::new();
    let mut start: usize = 0;
    let mut i: usize = 0;
    assert(texts(ids@) =~= Seq::<Seq<char>>::empty());
    while i < n
        invariant
            start <= i <= n,
            n == s@.len(),
            texts(ids@) + ids_from(s@, start as int, i as int) == ids_from(s@, 0, 0),
        decreases n - i,
    {
        let ghost found = texts(ids@);
        if s.get_char(i) == '\n' {
            if start < i {
                let id = String::from_str(s.substring_char(start, i));
                ids.push(id);
                proof {
                    let piece = s@.subrange(start as int, i as int);
                    let rest = ids_from(s@, i + 1, i + 1);
                    assert(texts(ids@) =~= found.push(piece));
                    assert(found + (seq![piece] + rest) =~= found.push(piece) + rest);
                }
            }
            start = i + 1;
        }
        i = i + 1;
    }
    if start < n {
        let ghost found = texts(ids@);
        let id = String::from_str(s.substring_char(start, n));
        ids.push(id);
        assert(texts(ids@) =~= found.push(s@.subrange(start as int, n as int)));
        assert(found + seq![s@.subrange(start as int, n as int)] =~= found.push(
            s@.subrange(start as int, n as int),
        ));
    } else {
        assert(texts(ids@) + Seq::<Seq<char>>::empty() =~= texts(ids@));
    }
    ids
}

/// How two entries of a compose file's environment list stand to each
/// other once the list is put in order.
#[derive(Clone, Copy, Debug, PartialEq, Eq, Structural)]
pub enum EntryOrder {
    /// The first entry comes first.
    Before,
    /// Neither comes first; the order they had is kept.
    Same,
    /// The second entry comes first.
    After,
}

/// The order of two texts at and after position `i`, all characters before
/// it being equal: decided by the first position at which they differ, the
/// smaller code point coming first, and by length when one text is the
/// beginning of the other. This is the order of the texts' UTF-8 bytes.
pub open spec fn order_from(a: Seq<char>, b: Seq<char>, i: int) -> EntryOrder
    decreases a.len() - i,
{
    if i < 0 || (i >= a.len() && i >= b.len()) {
        EntryOrder::Same
    } else if i >= a.len() {
        EntryOrder::Before
    } else if i >= b.len() {
        EntryOrder::After
    } else if (a[i] as u32) < (b[i] as u32) {
        EntryOrder::Before
    } else if (a[i] as u32) > (b[i] as u32) {
        EntryOrder::After
    } else {
        order_from(a, b, i + 1)
    }
}

/// The text an entry is ordered by: its own where it is a text, the empty
/// text otherwise.
pub open spec fn sort_key(entry: Option<Seq<char>>) -> Seq<char> {
    match entry {
        Some(text) => text,
        None => Seq::<char>::empty(),
    }
}

/// The order of two environment entries.
pub open spec fn entry_order(a: Option<Seq<char>>, b: Option<Seq<char>>) -> EntryOrder {
    order_from(sort_key(a), sort_key(b), 0)
}

/// The view of an optional text slice.
pub open spec fn slice_view(t: Option<&str>) -> Option<Seq<char>> {
    match t {
        Some(s) => Some(s@),
        None => None,
    }
}

/// Compares two entries of the environment list of a compose file. An entry
/// that is no text is given as `None` and ordered as the empty text.
pub fn compare_entries(a: Option<&str>, b: Option<&str>) -> (r: EntryOrder)
    ensures
        r == entry_order(slice_view(a), slice_view(b)),
{
    let x: &str = match a {
        Some(s) => s,
        None => "",
    };
    let y: &str = match b {
        Some(s) => s,
        None => "",
    };
    proof {
        reveal_strlit("");
    }
    assert(x@ =~= sort_key(slice_view(a)));
    assert(y@ =~= sort_key(slice_view(b)));
    let n: usize = x.unicode_len();
    let m: usize = y.unicode_len();
    let mut i: usize = 0;
    while i < n && i < m
        invariant
            i <= n,
            i <= m,
            n == x@.len(),
            m == y@.len(),
            x@ == sort_key(slice_view(a)),
            y@ == sort_key(slice_view(b)),
            order_from(x@, y@, i as int) == order_from(x@, y@, 0),
        decreases n - i,
    {
        let c: u32 = x.get_char(i) as u32;
        let d: u32 = y.get_char(i) as u32;
        if c < d {
            return EntryOrder::Before;
        }
        if c > d {
            return EntryOrder::After;
        }
        i = i + 1;
    }
    if i < m {
        EntryOrder::Before
    } else if i < n {
        EntryOrder::After
    } else {
        EntryOrder::Same
    }
}

/// Comparing an entry with itself gives `Same`, and swapping the two
/// entries swaps `Before` and `After`.
pub proof fn lemma_order_antisymmetric(a: Seq<char>, b: Seq<char>, i: int)
    requires
        0 <= i,
    ensures
        order_from(a, a, i) == EntryOrder::Same,
        order_from(a, b, i) == EntryOrder::Before <==> order_from(b, a, i) == EntryOrder::After,
        order_from(a, b, i) == EntryOrder::Same <==> order_from(b, a, i) == EntryOrder::Same,
    decreases a.len() - i,
{
    if i < a.len() {
        lemma_order_antisymmetric(a, a, i + 1);
        if i < b.len() && a[i] as u32 == b[i] as u32 {
            lemma_order_antisymmetric(a, b, i + 1);
        }
    }
}

/// Whether the first entry does not come after the second.
pub open spec fn not_after(a: Seq<char>, b: Seq<char>, i: int) -> bool {
    order_from(a, b, i) != EntryOrder::After
}

/// The order is transitive: an entry that does not come after a second,
/// which does not come after a third, does not come after the third.
pub proof fn lemma_order_transitive(a: Seq<char>, b: Seq<char>, c: Seq<char>, i: int)
    requires
        0 <= i,
        not_after(a, b, i),
        not_after(b, c, i),
    ensures
        not_after(a, c, i),
    decreases a.len() - i,
{
    if i < a.len() && i < b.len() && i < c.len() {
        if a[i] as u32 == b[i] as u32 && b[i] as u32 == c[i] as u32 {
            lemma_order_transitive(a, b, c, i + 1);
        }
    }
}

/// Makes `serde_yaml::Value`, a node of a YAML document, known as a type
/// whose inside is not looked into.
#[verifier::external_type_specification]
#[verifier::external_body]
pub struct ExYamlValue(serde_yaml::Value);

/// The text of the parser's error for `text`, or `None` where `text` is a
/// YAML document.
pub uninterp spec fn yaml_parse_failure(text: Seq<char>) -> Option<Seq<char>>;

/// The text a node of a document holds, where the node is a string.
pub uninterp spec fn node_text(node: serde_yaml::Value) -> Option<Seq<char>>;

/// Runs `serde_yaml::from_str::<serde_yaml::Value>` and returns the
/// document, or the display text of the parser's error. The parser reads
/// nothing but its argument, so whether and how it fails is a fixed function
/// of the text; nothing is claimed about the document.
#[verifier::external_body]
fn parse_yaml(text: &str) -> (r: Result<serde_yaml::Value, String>)
    ensures
        r matches Err(reason) ==> yaml_parse_failure(text@) == Some(reason@),
        r is Ok ==> yaml_parse_failure(text@) is None,
{
    serde_yaml::from_str::<serde_yaml::Value>(text).map_err(|e| e.to_string())
}

/// Calls `serde_yaml::Value::get_mut` with a text key: the node under that
/// key where `node` is a mapping that has it. Nothing is claimed about which
/// node comes back.
#[verifier::external_body]
fn child_mut<'a>(node: &'a mut serde_yaml::Value, key: &str) -> (r: Option<
    &'a mut serde_yaml::Value,
>) {
    node.get_mut(key)
}

/// Calls `serde_yaml::Value::as_sequence_mut`: the items of `node` where it
/// is a sequence. Nothing is claimed about the items.
#[verifier::external_body]
fn sequence_mut<'a>(node: &'a mut serde_yaml::Value) -> (r: Option<
    &'a mut Vec<serde_yaml::Value>,
>) {
    node.as_sequence_mut()
}

/// Calls `serde_yaml::Value::as_str`: the text of `node` where it is a
/// string, which is a fixed property of the node.
#[verifier::external_body]
fn text_of<'a>(node: &'a serde_yaml::Value) -> (r: Option<&'a str>)
    ensures
        slice_view(r) == node_text(*node),
{
    node.as_str()
}

/// Calls `serde_yaml::to_string` and returns the text, or the display text
/// of the serializer's error. Nothing is claimed about either.
#[verifier::external_body]
fn write_yaml(doc: &serde_yaml::Value) -> (r: Result<String, String>) {
    serde_yaml::to_string(doc).map_err(|e| e.to_string())
}

/// The order of two nodes of an environment list.
pub open spec fn node_order(a: serde_yaml::Value, b: serde_yaml::Value) -> EntryOrder {
    entry_order(node_text(a), node_text(b))
}

/// Whether `after` holds the nodes of `before` in order, equal nodes in the
/// order they had: `origin[k]` is the position in `before` of the node that
/// `after` holds at `k`.
pub open spec fn sorts_stably(
    before: Seq<serde_yaml::Value>,
    after: Seq<serde_yaml::Value>,
    origin: Seq<int>,
) -> bool {
    &&& after.len() == before.len()
    &&& origin.len() == before.len()
    &&& forall|k: int|
        0 <= k < origin.len() ==> 0 <= #[trigger] origin[k] < before.len() && after[k]
            == before[origin[k]]
    &&& forall|a: int, b: int| 0 <= a < b < origin.len() ==> origin[a] != origin[b]
    &&& forall|a: int, b: int|
        0 <= a < b < after.len() ==> node_order(after[a], after[b]) != EntryOrder::After
    &&& forall|a: int, b: int|
        0 <= a < b < after.len() && node_order(after[a], after[b]) == EntryOrder::Same
            ==> origin[a] < origin[b]
}

/// Whether `after` is `before`, stably sorted.
pub open spec fn sorted_stably(
    before: Seq<serde_yaml::Value>,
    after: Seq<serde_yaml::Value>,
) -> bool {
    exists|origin: Seq<int>| sorts_stably(before, after, origin)
}

/// Whether the nodes placed so far are in order and stand in the order of
/// their old positions wherever they compare equal, all of them taken from
/// position `rest` of `before` on.
pub open spec fn placed(
    before: Seq<serde_yaml::Value>,
    sorted: Seq<serde_yaml::Value>,
    origin: Seq<int>,
    rest: int,
) -> bool {
    &&& origin.len() == sorted.len()
    &&& forall|k: int|
        0 <= k < origin.len() ==> rest <= #[trigger] origin[k] < before.len() && sorted[k]
            == before[origin[k]]
    &&& forall|a: int, b: int| 0 <= a < b < origin.len() ==> origin[a] != origin[b]
    &&& forall|a: int, b: int|
        0 <= a < b < sorted.len() ==> node_order(sorted[a], sorted[b]) != EntryOrder::After
    &&& forall|a: int, b: int|
        0 <= a < b < sorted.len() && node_order(sorted[a], sorted[b]) == EntryOrder::Same
            ==> origin[a] < origin[b]
}

/// Placing the node at position `rest - 1` before the first placed node
/// that does not come before it keeps the placed nodes in stable order.
proof fn lemma_place(
    before: Seq<serde_yaml::Value>,
    sorted: Seq<serde_yaml::Value>,
    origin: Seq<int>,
    rest: int,
    pos: int,
)
    requires
        0 < rest <= before.len(),
        placed(before, sorted, origin, rest),
        0 <= pos <= sorted.len(),
        forall|k: int|
            0 <= k < pos ==> node_order(#[trigger] sorted[k], before[rest - 1])
                == EntryOrder::Before,
        pos < sorted.len() ==> node_order(sorted[pos], before[rest - 1]) != EntryOrder::Before,
    ensures
        placed(
            before,
            sorted.insert(pos, before[rest - 1]),
            origin.insert(pos, rest - 1),
            rest - 1,
        ),
{
    let x = before[rest - 1];
    let key = sort_key(node_text(x));
    let next = sorted.insert(pos, x);
    let from = origin.insert(pos, rest - 1);
    assert forall|k: int| pos <= k < sorted.len() implies node_order(x, #[trigger] sorted[k])
        != EntryOrder::After by {
        let at = sort_key(node_text(sorted[pos]));
        let other = sort_key(node_text(sorted[k]));
        lemma_order_antisymmetric(at, key, 0);
        lemma_order_antisymmetric(at, at, 0);
        if k > pos {
            assert(node_order(sorted[pos], sorted[k]) != EntryOrder::After);
        }
        lemma_order_transitive(key, at, other, 0);
    }
    assert forall|a: int, b: int| 0 <= a < b < next.len() implies node_order(next[a], next[b])
        != EntryOrder::After && (node_order(next[a], next[b]) == EntryOrder::Same ==> from[a]
        < from[b]) && from[a] != from[b] by {
        let old_a = if a < pos {
            a
        } else {
            a - 1
        };
        let old_b = if b < pos {
            b
        } else {
            b - 1
        };
        if a == pos {
            assert(next[b] == sorted[old_b]);
            assert(from[b] == origin[old_b]);
        } else if b == pos {
            assert(next[a] == sorted[old_a]);
            assert(from[a] == origin[old_a]);
        } else {
            assert(next[a] == sorted[old_a] && next[b] == sorted[old_b]);
            assert(from[a] == origin[old_a] && from[b] == origin[old_b]);
            assert(node_order(sorted[old_a], sorted[old_b]) != EntryOrder::After);
        }
    }
    assert forall|k: int| 0 <= k < from.len() implies rest - 1 <= #[trigger] from[k] < before.len()
        && next[k] == before[from[k]] by {
        if k != pos {
            let old_k = if k < pos {
                k
            } else {
                k - 1
            };
            assert(from[k] == origin[old_k]);
            assert(next[k] == sorted[old_k]);
        }
    }
}

/// Sorts the nodes of an environment list by their texts, a node that is
/// no text counting as the empty text, and keeps nodes that compare equal in
/// the order they had.
pub fn sort_entries(items: &mut Vec<serde_yaml::Value>)
    ensures
        sorted_stably(old(items)@, final(items)@),
{
    let ghost before = items@;
    let mut sorted: Vec<serde_yaml::Value> = Vec::new();
    let ghost mut origin: Seq<int> = Seq::<int>::empty();
    while items.len() > 0
        invariant
            items@ == before.subrange(0, items@.len() as int),
            items@.len() <= before.len(),
            sorted@.len() + items@.len() == before.len(),
            placed(before, sorted@, origin, items@.len() as int),
        decreases items@.len(),
    {
        let ghost rest = items@.len() as int;
        let popped = items.pop();
        let x = match popped {
            Some(v) => v,
            None => {
                return ;
            },
        };
        assert(x == before[rest - 1]);
        let mut pos: usize = 0;
        while pos < sorted.len() && same_order(
            compare_entries(text_of(&sorted[pos]), text_of(&x)),
            EntryOrder::Before,
        )
            invariant
                pos <= sorted@.len(),
                forall|k: int|
                    0 <= k < pos ==> node_order(#[trigger] sorted@[k], x) == EntryOrder::Before,
            decreases sorted@.len() - pos,
        {
            pos = pos + 1;
        }
        proof {
            lemma_place(before, sorted@, origin, rest, pos as int);
            origin = origin.insert(pos as int, rest - 1);
        }
        sorted.insert(pos, x);
        assert(items@ =~= before.subrange(0, items@.len() as int));
    }
    proof {
        assert(sorts_stably(before, sorted@, origin));
    }
    *items = sorted;
}

/// Whether two orders are the same.
pub fn same_order(a: EntryOrder, b: EntryOrder) -> (r: bool)
    ensures
        r == (a == b),
{
    match (a, b) {
        (EntryOrder::Before, EntryOrder::Before) => true,
        (EntryOrder::Same, EntryOrder::Same) => true,
        (EntryOrder::After, EntryOrder::After) => true,
        _ => false,
    }
}

/// Why a compose file could not be normalized.
#[derive(Debug, PartialEq, Eq)]
pub enum ComposeError {
    /// The file is no YAML document. `reason` is the parser's text.
    Parse { reason: String },
    /// The document could not be written back. `reason` is the
    /// serializer's text.
    Write { reason: String },
}

impl ComposeError {
    /// The text of the error.
    pub open spec fn text(&self) -> Seq<char> {
        match *self {
            ComposeError::Parse { reason } => "Failed to parse Docker compose as YAML: "@ + reason@,
            ComposeError::Write { reason } => "Failed to serialize normalized YAML: "@ + reason@,
        }
    }

    /// The text of the error.
    pub fn message(&self) -> (r: String)
        ensures
            r@ == self.text(),
    {
        match self {
            ComposeError::Parse { reason } => {
                let mut text = String::from_str("Failed to parse Docker compose as YAML: ");
                text.append(reason.as_str());
                text
            },
            ComposeError::Write { reason } => {
                let mut text = String::from_str("Failed to serialize normalized YAML: ");
                text.append(reason.as_str());
                text
            },
        }
    }
}

/// What normalizing comes to once the document has been written back: the
/// written text, or the writer's error.
pub fn normalized_outcome(written: Result<String, String>) -> (r: Result<String, ComposeError>)
    ensures
        written matches Ok(text) ==> r == Ok::<String, ComposeError>(text),
        written matches Err(reason) ==> r == Err::<String, ComposeError>(
            ComposeError::Write { reason },
        ),
{
    match written {
        Ok(text) => Ok(text),
        Err(reason) => Err(ComposeError::Write { reason }),
    }
}

/// Normalizes a compose file: parses it, sorts the environment list of the
/// service `agent`, where there is one, and writes the document back. A text
/// that is no YAML document is rejected with the parser's reason; for any
/// other text the result is whatever the writer returns for the reordered
/// document.
pub fn normalize_docker_compose(docker_compose: &str) -> (r: Result<String, ComposeError>)
    ensures
        yaml_parse_failure(docker_compose@) matches Some(reason) ==> r matches Err(
            ComposeError::Parse { reason: text },
        ) && text@ == reason,
        yaml_parse_failure(docker_compose@) is None ==> !(r is Err && r->Err_0 is Parse),
{
    match parse_yaml(docker_compose) {
        Err(reason) => Err(ComposeError::Parse { reason }),
        Ok(parsed) => {
            let mut doc = parsed;
            match child_mut(&mut doc, "services") {
                Some(services) => match child_mut(services, "agent") {
                    Some(agent) => match child_mut(agent, "environment") {
                        Some(environment) => match sequence_mut(environment) {
                            Some(items) => {
                                sort_entries(items);
                            },
                            None => {},
                        },
                        None => {},
                    },
                    None => {},
                },
                None => {},
            }
            normalized_outcome(write_yaml(&doc))
        },
    }
}

} // verus!
