//! The nodes of a document, and how elements are found across shadow roots and
//! frames.
use vstd::prelude::*;

use crate::error::{CdpError, CdpErrorView};
use crate::page::call::{call, Call, CallView, Page, Param, ParamView};
use crate::tables::NodeSet;

verus! {

/// A node of a document.
#[derive(Debug)]
pub struct Node {
    /// Its number.
    pub node_id: i64,
    /// The children.
    pub children: Option<Vec<Node>>,
    /// The document of a frame.
    pub content_document: Option<Box<Node>>,
    /// The shadow roots of a host.
    pub shadow_roots: Option<Vec<Node>>,
}

/// The numbers of a node and of all that is in it: the node, its children, the
/// document of its frame, its shadow roots.
pub open spec fn node_ids(node: Node) -> Seq<i64>
    decreases node, 0int,
{
    seq![node.node_id] + (match node.children {
        Some(children) => forest_ids(children, 0),
        None => Seq::empty(),
    }) + (match node.content_document {
        Some(document) => node_ids(*document),
        None => Seq::empty(),
    }) + (match node.shadow_roots {
        Some(roots) => forest_ids(roots, 0),
        None => Seq::empty(),
    })
}

/// The numbers of the nodes of a list, from a place on, and of all that is in them.
pub open spec fn forest_ids(nodes: Vec<Node>, from: int) -> Seq<i64>
    decreases nodes, nodes.len() - from,
{
    if 0 <= from < nodes.len() {
        node_ids(nodes[from]) + forest_ids(nodes, from + 1)
    } else {
        Seq::empty()
    }
}

/// A row without what occurs in it before.
pub open spec fn first_occurrences(row: Seq<i64>) -> Seq<i64>
    decreases row.len(),
{
    if row.len() == 0 {
        row
    } else if row.drop_last().contains(row.last()) {
        first_occurrences(row.drop_last())
    } else {
        first_occurrences(row.drop_last()).push(row.last())
    }
}

/// A row without repetitions has each of the values once, and nothing else, and
/// begins as the row does.
pub proof fn first_occurrences_keep_every_value_once(row: Seq<i64>)
    ensures
        first_occurrences(row).no_duplicates(),
        forall|v: i64| first_occurrences(row).contains(v) <==> row.contains(v),
        first_occurrences(row).len() <= row.len(),
        row.len() > 0 ==> first_occurrences(row).len() > 0 && first_occurrences(row)[0] == row[0],
    decreases row.len(),
{
    if row.len() > 0 {
        let rest = row.drop_last();
        first_occurrences_keep_every_value_once(rest);
        assert(row =~= rest.push(row.last()));
        assert forall|v: i64| first_occurrences(row).contains(v) <==> row.contains(v) by {
            if row.contains(v) {
                let i = choose|i: int| 0 <= i < row.len() && row[i] == v;
                if i < rest.len() {
                    assert(rest[i] == v);
                    assert(rest.contains(v));
                    let k = choose|k: int|
                        0 <= k < first_occurrences(rest).len() && first_occurrences(rest)[k] == v;
                    assert(first_occurrences(row)[k] == v);
                } else if !rest.contains(v) {
                    let last = first_occurrences(row).len() - 1;
                    assert(first_occurrences(row)[last] == v);
                } else {
                    assert(first_occurrences(rest).contains(v));
                }
            }
            if first_occurrences(row).contains(v) {
                let k = choose|k: int|
                    0 <= k < first_occurrences(row).len() && first_occurrences(row)[k] == v;
                if k < first_occurrences(rest).len() {
                    assert(first_occurrences(rest)[k] == v);
                    assert(first_occurrences(rest).contains(v));
                    assert(rest.contains(v));
                    let i = choose|i: int| 0 <= i < rest.len() && rest[i] == v;
                    assert(row[i] == v);
                } else {
                    assert(row[row.len() - 1] == v);
                }
            }
        }
        assert forall|a: int, b: int|
            0 <= a < first_occurrences(row).len() && 0 <= b < first_occurrences(row).len() && a
                != b implies first_occurrences(row)[a] != first_occurrences(row)[b] by {
            let m = first_occurrences(rest).len() as int;
            if first_occurrences(row).len() > m {
                if a == m {
                    assert(first_occurrences(rest).contains(first_occurrences(rest)[b]));
                } else if b == m {
                    assert(first_occurrences(rest).contains(first_occurrences(rest)[a]));
                }
            }
        }
        if rest.len() == 0 {
            assert(first_occurrences(rest).len() == 0);
        }
    }
}

proof fn lemma_first_occurrences_push(row: Seq<i64>, value: i64)
    ensures
        first_occurrences(row.push(value)) == if row.contains(value) {
            first_occurrences(row)
        } else {
            first_occurrences(row).push(value)
        },
{
    assert(row.push(value).drop_last() =~= row);
}

/// A set that holds the values of a row holds those of the longer row too, once the
/// new value is in it.
proof fn lemma_seen_push(seen: Set<i64>, row: Seq<i64>, value: i64)
    requires
        forall|v: i64| seen.contains(v) <==> row.contains(v),
    ensures
        forall|v: i64| seen.insert(value).contains(v) <==> row.push(value).contains(v),
{
    let longer = row.push(value);
    assert forall|v: i64| seen.insert(value).contains(v) <==> longer.contains(v) by {
        if longer.contains(v) {
            let i = choose|i: int| 0 <= i < longer.len() && longer[i] == v;
            if i < row.len() {
                assert(row[i] == v);
                assert(row.contains(v));
            }
        }
        if row.contains(v) {
            let i = choose|i: int| 0 <= i < row.len() && row[i] == v;
            assert(longer[i] == v);
        }
        if v == value {
            assert(longer[row.len() as int] == v);
        }
    }
}

/// The numbers of the nodes on a stack and of all that is in them, from the top.
spec fn stack_ids(stack: Seq<&Node>) -> Seq<i64>
    decreases stack.len(),
{
    if stack.len() == 0 {
        Seq::empty()
    } else {
        node_ids(*stack.last()) + stack_ids(stack.drop_last())
    }
}

/// Puts a list of nodes on a stack, the first one on top.
fn push_nodes<'a>(stack: Vec<&'a Node>, nodes: &'a Vec<Node>) -> (fuller: Vec<&'a Node>)
    ensures
        stack_ids(fuller@) == forest_ids(*nodes, 0) + stack_ids(stack@),
{
    let mut fuller = stack;
    let mut i: usize = nodes.len();
    proof {
        assert(stack_ids(stack@) =~= forest_ids(*nodes, i as int) + stack_ids(stack@));
    }
    while i > 0
        invariant
            i <= nodes.len(),
            stack_ids(fuller@) == forest_ids(*nodes, i as int) + stack_ids(stack@),
        decreases i,
    {
        i = i - 1;
        let ghost before = fuller@;
        fuller.push(&nodes[i]);
        proof {
            assert(fuller@.drop_last() =~= before);
            assert(stack_ids(fuller@) =~= forest_ids(*nodes, i as int) + stack_ids(stack@));
        }
    }
    fuller
}

/// The nodes under which elements are searched: the root and all that is in it, in
/// the order of [`node_ids`], each once.
#[verifier::rlimit(30)]
pub fn collect_scopes_iterative(root: &Node) -> (scopes: Vec<i64>)
    ensures
        scopes@ == first_occurrences(node_ids(*root)),
{
    let mut scopes: Vec<i64> = Vec::new();
    let mut seen = NodeSet::new();
    let mut stack: Vec<&Node> = Vec::new();
    stack.push(root);
    let ghost mut visited: Seq<i64> = Seq::empty();
    proof {
        assert(stack@.drop_last() =~= Seq::empty());
        assert(stack_ids(stack@.drop_last()) =~= Seq::<i64>::empty());
        assert(stack_ids(stack@) =~= node_ids(*root));
        assert(visited + stack_ids(stack@) =~= node_ids(*root));
        assert(scopes@ =~= first_occurrences(visited));
    }
    while stack.len() > 0
        invariant
            visited + stack_ids(stack@) == node_ids(*root),
            scopes@ == first_occurrences(visited),
            forall|v: i64| seen@.contains(v) <==> visited.contains(v),
        decreases stack_ids(stack@).len(),
    {
        let ghost before = stack@;
        let ghost done = visited;
        let node = stack.pop().unwrap();
        proof {
            lemma_seen_push(seen@, done, node.node_id);
        }
        let fresh = seen.insert(node.node_id);
        if fresh {
            scopes.push(node.node_id);
        }
        proof {
            visited = done.push(node.node_id);
            lemma_first_occurrences_push(done, node.node_id);
            assert(stack@ =~= before.drop_last());
            assert(before.last() == node);
        }
        if let Some(roots) = &node.shadow_roots {
            stack = push_nodes(stack, roots);
        }
        let ghost with_roots = stack@;
        if let Some(document) = &node.content_document {
            let document: &Node = document;
            stack.push(document);
            proof {
                assert(stack@.drop_last() =~= with_roots);
            }
        }
        if let Some(children) = &node.children {
            stack = push_nodes(stack, children);
        }
        proof {
            assert(node_ids(*node) + stack_ids(before.drop_last()) =~= seq![node.node_id]
                + stack_ids(stack@));
            assert(visited + stack_ids(stack@) =~= done + stack_ids(before));
        }
    }
    proof {
        assert(stack_ids(stack@) =~= Seq::empty());
        assert(visited =~= node_ids(*root));
    }
    scopes
}

/// The results of the searches that did not fail, one after the other.
pub open spec fn found_in_all(results: Seq<Option<Vec<i64>>>) -> Seq<i64>
    decreases results.len(),
{
    if results.len() == 0 {
        Seq::empty()
    } else {
        found_in_all(results.drop_last()) + (match results.last() {
            Some(ids) => ids@,
            None => Seq::empty(),
        })
    }
}

/// The nodes that searches under several scopes found, each once. A search that
/// failed counts as one that found nothing.
pub fn merge_found(results: &Vec<Option<Vec<i64>>>) -> (all: Vec<i64>)
    ensures
        all@ == first_occurrences(found_in_all(results@)),
{
    let mut all: Vec<i64> = Vec::new();
    let mut seen = NodeSet::new();
    let ghost mut row: Seq<i64> = Seq::empty();
    let mut i: usize = 0;
    proof {
        assert(results@.take(0).len() == 0);
        assert(all@ =~= first_occurrences(row));
    }
    while i < results.len()
        invariant
            i <= results.len(),
            row == found_in_all(results@.take(i as int)),
            all@ == first_occurrences(row),
            forall|v: i64| seen@.contains(v) <==> row.contains(v),
        decreases results.len() - i,
    {
        let ghost before = row;
        proof {
            assert(results@.take(i + 1).drop_last() =~= results@.take(i as int));
        }
        if let Some(ids) = &results[i] {
            let mut k: usize = 0;
            proof {
                assert(ids@.take(0) =~= Seq::empty());
                assert(before + ids@.take(0) =~= before);
            }
            while k < ids.len()
                invariant
                    k <= ids.len(),
                    row == before + ids@.take(k as int),
                    all@ == first_occurrences(row),
                    forall|v: i64| seen@.contains(v) <==> row.contains(v),
                decreases ids.len() - k,
            {
                let id: i64 = ids[k];
                let ghost done = row;
                proof {
                    lemma_seen_push(seen@, done, id);
                }
                if seen.insert(id) {
                    all.push(id);
                }
                proof {
                    row = done.push(id);
                    lemma_first_occurrences_push(done, id);
                    assert(before + ids@.take(k + 1) =~= row);
                }
                k = k + 1;
            }
            proof {
                assert(ids@.take(k as int) =~= ids@);
            }
        } else {
            proof {
                assert(before + Seq::<i64>::empty() =~= before);
            }
        }
        i = i + 1;
    }
    proof {
        assert(results@.take(i as int) =~= results@);
    }
    all
}

/// The element of those found that is taken: the last one.
pub fn found_element(ids: &Vec<i64>) -> (id: Result<i64, CdpError>)
    ensures
        match id {
            Ok(i) => ids.len() > 0 && i == ids@.last(),
            Err(error) => ids.len() == 0 && error@ == CdpErrorView::Msg("not found"@),
        },
{
    if ids.len() == 0 {
        Err(CdpError::msg("not found"))
    } else {
        Ok(ids[ids.len() - 1])
    }
}

/// The first shadow root of a host.
pub fn first_shadow_root(host: &Node) -> (id: Result<i64, CdpError>)
    ensures
        match id {
            Ok(i) => host.shadow_roots matches Some(roots) && roots.len() > 0 && i
                == roots[0].node_id,
            Err(error) => {
                &&& host.shadow_roots matches Some(roots) ==> roots.len() == 0
                &&& error@ == CdpErrorView::Msg("host has no shadow root"@)
            },
        },
{
    match &host.shadow_roots {
        Some(roots) => if roots.len() > 0 {
            Ok(roots[0].node_id)
        } else {
            Err(CdpError::msg("host has no shadow root"))
        },
        None => Err(CdpError::msg("host has no shadow root")),
    }
}

/// The command that gets the whole document, frames and shadow roots included.
pub open spec fn get_document_call() -> CallView {
    call("DOM.getDocument"@).with("depth"@, ParamView::Int(-1)).with(
        "pierce"@,
        ParamView::Bool(true),
    )
}

/// The command that describes a shadow host.
pub open spec fn describe_host_call(host: i64) -> CallView {
    call("DOM.describeNode"@).with("nodeId"@, ParamView::Int(host as int)).with(
        "depth"@,
        ParamView::Int(0),
    ).with("pierce"@, ParamView::Bool(true))
}

/// The command on a node.
pub open spec fn node_call(method: Seq<char>, node: i64) -> CallView {
    call(method).with("nodeId"@, ParamView::Int(node as int))
}

/// What a search across a shadow root has come to.
#[derive(Debug, Clone, Copy, PartialEq, Eq, Structural)]
pub enum ShadowStage {
    /// The document is asked for.
    Document,
    /// The host is searched.
    Host,
    /// The host is described.
    Describe,
    /// The element is searched.
    Inner,
    /// The search is over.
    Done,
}

/// What came back.
#[derive(Debug)]
pub enum ShadowReply {
    /// The document, or the description of a node.
    Node(Node),
    /// The node that a selector found.
    Found(i64),
}

/// What is to be done next.
#[derive(Debug)]
pub enum ShadowAction {
    /// Send a command that gives a node.
    Ask(Call),
    /// Find the first node under a node that a selector matches.
    Find { selector: String, node_id: i64 },
    /// The element is found.
    Done(i64),
    /// Nothing: the reply is not one that was asked for.
    Ignore,
}

/// The view of [`ShadowAction`].
pub enum ShadowActionView {
    Ask(CallView),
    Find { selector: Seq<char>, node_id: i64 },
    Done(i64),
    Ignore,
}

impl View for ShadowAction {
    type V = ShadowActionView;

    open spec fn view(&self) -> ShadowActionView {
        match *self {
            ShadowAction::Ask(c) => ShadowActionView::Ask(c@),
            ShadowAction::Find { selector, node_id } => ShadowActionView::Find {
                selector: selector@,
                node_id,
            },
            ShadowAction::Done(id) => ShadowActionView::Done(id),
            ShadowAction::Ignore => ShadowActionView::Ignore,
        }
    }
}

/// A search for an element inside the shadow root of a host.
#[derive(Debug)]
pub struct ShadowSearch {
    /// The selector of the host.
    pub host_selector: String,
    /// The selector of the element.
    pub inner_selector: String,
    /// What the search has come to.
    pub stage: ShadowStage,
}

/// The view of what is to be done next of a search, or why it fails.
pub open spec fn shadow_result(action: Result<ShadowAction, CdpError>) -> Result<
    ShadowActionView,
    CdpErrorView,
> {
    match action {
        Ok(a) => Ok(a@),
        Err(error) => Err(error@),
    }
}

/// What a reply makes of a search: the host is searched in the document, described, and
/// the element is searched in its first shadow root.
pub open spec fn searched(
    host_selector: Seq<char>,
    inner_selector: Seq<char>,
    stage: ShadowStage,
    reply: ShadowReply,
) -> (ShadowStage, Result<ShadowActionView, CdpErrorView>) {
    match (stage, reply) {
        (ShadowStage::Document, ShadowReply::Node(root)) => (
            ShadowStage::Host,
            Ok(ShadowActionView::Find { selector: host_selector, node_id: root.node_id }),
        ),
        (ShadowStage::Host, ShadowReply::Found(host)) => (
            ShadowStage::Describe,
            Ok(ShadowActionView::Ask(describe_host_call(host))),
        ),
        (ShadowStage::Describe, ShadowReply::Node(host)) => {
            if host.shadow_roots matches Some(roots) && roots.len() > 0 {
                (
                    ShadowStage::Inner,
                    Ok(
                        ShadowActionView::Find {
                            selector: inner_selector,
                            node_id: host.shadow_roots->0[0].node_id,
                        },
                    ),
                )
            } else {
                (ShadowStage::Done, Err(CdpErrorView::Msg("host has no shadow root"@)))
            }
        },
        (ShadowStage::Inner, ShadowReply::Found(id)) => (
            ShadowStage::Done,
            Ok(ShadowActionView::Done(id)),
        ),
        _ => (stage, Ok(ShadowActionView::Ignore)),
    }
}

impl ShadowSearch {
    /// Takes a reply, and says what is to be done next: the host is searched in
    /// the document, described, and the element is searched in its first shadow
    /// root.
    pub fn next(&mut self, reply: &ShadowReply) -> (action: Result<ShadowAction, CdpError>)
        ensures
            final(self).host_selector == old(self).host_selector,
            final(self).inner_selector == old(self).inner_selector,
            (final(self).stage, shadow_result(action)) == searched(
                old(self).host_selector@,
                old(self).inner_selector@,
                old(self).stage,
                *reply,
            ),
    {
        match (self.stage, reply) {
            (ShadowStage::Document, ShadowReply::Node(root)) => {
                self.stage = ShadowStage::Host;
                Ok(
                    ShadowAction::Find {
                        selector: self.host_selector.clone(),
                        node_id: root.node_id,
                    },
                )
            },
            (ShadowStage::Host, ShadowReply::Found(host)) => {
                self.stage = ShadowStage::Describe;
                let call = Call::new("DOM.describeNode").with("nodeId", Param::Int(*host)).with(
                    "depth",
                    Param::Int(0),
                ).with("pierce", Param::Bool(true));
                Ok(ShadowAction::Ask(call))
            },
            (ShadowStage::Describe, ShadowReply::Node(host)) => {
                match first_shadow_root(host) {
                    Ok(node_id) => {
                        self.stage = ShadowStage::Inner;
                        Ok(
                            ShadowAction::Find {
                                selector: self.inner_selector.clone(),
                                node_id,
                            },
                        )
                    },
                    Err(error) => {
                        self.stage = ShadowStage::Done;
                        Err(error)
                    },
                }
            },
            (ShadowStage::Inner, ShadowReply::Found(id)) => {
                self.stage = ShadowStage::Done;
                Ok(ShadowAction::Done(*id))
            },
            _ => Ok(ShadowAction::Ignore),
        }
    }
}

impl Page {
    /// Gets the whole document, frames and shadow roots included.
    pub fn get_document(&self) -> (c: Call)
        ensures
            c@ == get_document_call(),
    {
        Call::new("DOM.getDocument").with("depth", Param::Int(-1)).with("pierce", Param::Bool(true))
    }

    /// Describes a node.
    pub fn describe_node(&self, node_id: i64) -> (c: Call)
        ensures
            c@ == node_call("DOM.describeNode"@, node_id),
    {
        Call::new("DOM.describeNode").with("nodeId", Param::Int(node_id))
    }

    /// Gets the HTML of a document, by the number of its root.
    pub fn outer_html(&self, root: i64) -> (c: Call)
        ensures
            c@ == node_call("DOM.getOuterHTML"@, root),
    {
        Call::new("DOM.getOuterHTML").with("nodeId", Param::Int(root))
    }

    /// The elements that a search across shadow roots and frames found: each scope of
    /// the document was searched, and some of the searches may have failed.
    pub fn find_elements_pierced(&self, results: &Vec<Option<Vec<i64>>>) -> (all: Vec<i64>)
        ensures
            all@ == first_occurrences(found_in_all(results@)),
    {
        merge_found(results)
    }

    /// The element that a search across shadow roots and frames found: the last one
    /// of all.
    pub fn find_element_pierced(&self, results: &Vec<Option<Vec<i64>>>) -> (id: Result<
        i64,
        CdpError,
    >)
        ensures
            ({
                let all = first_occurrences(found_in_all(results@));
                match id {
                    Ok(i) => all.len() > 0 && i == all.last(),
                    Err(error) => all.len() == 0 && error@ == CdpErrorView::Msg("not found"@),
                }
            }),
    {
        found_element(&self.find_elements_pierced(results))
    }

    /// The element that a search by path found: the first one of all. The document is to
    /// be asked for before the search.
    pub fn find_xpath(&self, found: &Vec<i64>) -> (id: i64)
        requires
            found.len() > 0,
        ensures
            id == found@[0],
    {
        found[0]
    }

    /// Begins a search for an element inside the shadow root of a host. The
    /// document is to be asked for first.
    pub fn find_in_shadow_root(&self, host_selector: &str, inner_selector: &str) -> (search: (
        ShadowSearch,
        Call,
    ))
        ensures
            search.0.host_selector@ == host_selector@,
            search.0.inner_selector@ == inner_selector@,
            search.0.stage == ShadowStage::Document,
            search.1@ == get_document_call(),
    {
        (
            ShadowSearch {
                host_selector: host_selector.to_owned(),
                inner_selector: inner_selector.to_owned(),
                stage: ShadowStage::Document,
            },
            self.get_document(),
        )
    }
}

/// Every node of a document is a scope, each once, the root first.
pub proof fn scopes_are_all_nodes_once(root: Node)
    ensures
        ({
            let scopes = first_occurrences(node_ids(root));
            &&& scopes.no_duplicates()
            &&& forall|v: i64| scopes.contains(v) <==> node_ids(root).contains(v)
            &&& scopes.len() > 0 && scopes[0] == root.node_id
        }),
{
    first_occurrences_keep_every_value_once(node_ids(root));
}

} // verus!
