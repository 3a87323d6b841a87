use crate::date::{spec_parse_date, Date};
use crate::error::Error;
use crate::text::{spec_ends_with, spec_starts_with, str_ends_with, str_starts_with, string_eq_str};
use crate::tree::{find_attr, XmlDocument};
use vstd::prelude::*;

verus! {

// ---------------------------------------------------------------------------
// The data model: context, entity, segment, period.
// ---------------------------------------------------------------------------
/// A context's reporting period: exactly one point in time or one range.
/// A period element carrying neither kind of child, or both kinds at once,
/// is malformed and classifies as nothing.
#[derive(Debug, Clone, Copy, PartialEq, Eq, Structural)]
pub enum Period {
    Instant { date: Date },
    Duration { start_date: Date, end_date: Date },
}

impl Period {
    /// Parses one period date, `YYYY-MM-DD`; the classifier's date
    /// reader, offered to callers that handle period texts themselves.
    pub fn parse_date_from(d: &str) -> (r: Result<Date, Error>)
        ensures
            match r {
                Ok(date) => spec_parse_date(d@) == Some(date),
                Err(e) => spec_parse_date(d@) is None && (e matches Error::InvalidDate {
                    text,
                } && text@ == d@),
            },
    {
        match crate::date::parse_date(d) {
            Some(date) => Ok(date),
            None => Err(Error::InvalidDate { text: String::from_str(d) }),
        }
    }
}

/// One dimension/value pair of a context's segment, e.g. a class of stock.
#[derive(Debug)]
pub struct SegmentMember {
    pub dimension: String,
    pub value: String,
}

/// The ordered dimension members a context is broken down along.
#[derive(Debug)]
pub struct Segment {
    pub members: Vec<SegmentMember>,
}

/// The reporting entity of a context.  No segment means the fact is
/// entity-wide (consolidated); a segment means it is broken down along a
/// reporting dimension.
#[derive(Debug)]
pub struct Entity {
    pub segment: Option<Segment>,
}

/// A resolved `<context>`: its document-unique id, entity and period.
#[derive(Debug)]
pub struct Context {
    pub id: String,
    pub entity: Entity,
    pub period: Period,
}

// ---------------------------------------------------------------------------
// Mathematical views.
// ---------------------------------------------------------------------------
#[verifier::ext_equal]
pub struct SegmentMemberView {
    pub dimension: Seq<char>,
    pub value: Seq<char>,
}

#[verifier::ext_equal]
pub struct ContextView {
    pub id: Seq<char>,
    pub segment: Option<Seq<SegmentMemberView>>,
    pub period: Period,
}

impl View for SegmentMember {
    type V = SegmentMemberView;

    open spec fn view(&self) -> SegmentMemberView {
        SegmentMemberView { dimension: self.dimension@, value: self.value@ }
    }
}

impl View for Segment {
    type V = Seq<SegmentMemberView>;

    open spec fn view(&self) -> Seq<SegmentMemberView> {
        self.members@.map_values(|m: SegmentMember| m@)
    }
}

impl View for Entity {
    type V = Option<Seq<SegmentMemberView>>;

    open spec fn view(&self) -> Option<Seq<SegmentMemberView>> {
        match self.segment {
            Some(s) => Some(s@),
            None => None,
        }
    }
}

impl View for Context {
    type V = ContextView;

    open spec fn view(&self) -> ContextView {
        ContextView { id: self.id@, segment: self.entity@, period: self.period }
    }
}

impl Clone for SegmentMember {
    fn clone(&self) -> (r: Self)
        ensures
            r@ == self@,
    {
        SegmentMember { dimension: self.dimension.clone(), value: self.value.clone() }
    }
}

impl Clone for Segment {
    fn clone(&self) -> (r: Self)
        ensures
            r@ == self@,
    {
        let mut members: Vec<SegmentMember> = Vec::new();
        let n = self.members.len();
        let mut i: usize = 0;
        while i < n
            invariant
                n == self.members@.len(),
                i <= n,
                members@.len() == i,
                forall|k: int| 0 <= k < i ==> members@[k]@ == self.members@[k]@,
            decreases n - i,
        {
            members.push(self.members[i].clone());
            i = i + 1;
        }
        let r = Segment { members };
        proof {
            assert(r@ =~= self@);
        }
        r
    }
}

impl Clone for Entity {
    fn clone(&self) -> (r: Self)
        ensures
            r@ == self@,
    {
        match &self.segment {
            Some(s) => Entity { segment: Some(s.clone()) },
            None => Entity { segment: None },
        }
    }
}

impl Clone for Context {
    fn clone(&self) -> (r: Self)
        ensures
            r@ == self@,
    {
        Context { id: self.id.clone(), entity: self.entity.clone(), period: self.period }
    }
}

// ---------------------------------------------------------------------------
// The resolution model: what each part of a `<context>` subtree denotes.
// All of it is stated over the arena; `None` means the subtree is
// malformed and resolving it is a structure error.
// ---------------------------------------------------------------------------
/// The child indices of arena node `i`.
pub open spec fn children_of(doc: XmlDocument, i: int) -> Seq<usize> {
    doc.nodes@[i].children@
}

/// Node `j` is an element with the given tag name.
pub open spec fn is_named_elem(doc: XmlDocument, j: int, name: Seq<char>) -> bool {
    doc.nodes@[j].is_element && doc.nodes@[j].tag@ == name
}

/// The own text of node `j`.
pub open spec fn node_text(doc: XmlDocument, j: int) -> Option<Seq<char>> {
    match doc.nodes@[j].text {
        Some(t) => Some(t@),
        None => None,
    }
}

/// The value of attribute `name` on node `j`.
pub open spec fn node_attr_of(doc: XmlDocument, j: int, name: Seq<char>) -> Option<Seq<char>> {
    find_attr(doc.nodes@[j].attrs@, name)
}

/// The `id` attribute of a context element.
pub open spec fn ctx_id_of(doc: XmlDocument, j: int) -> Option<Seq<char>> {
    node_attr_of(doc, j, "id"@)
}

/// The last index in `cs` naming an element called `name`: repeated
/// children overwrite earlier ones, as the scanner reads them in order.
pub open spec fn last_named(doc: XmlDocument, cs: Seq<usize>, name: Seq<char>) -> Option<usize>
    decreases cs.len(),
{
    if cs.len() == 0 {
        None
    } else if is_named_elem(doc, cs.last() as int, name) {
        Some(cs.last())
    } else {
        last_named(doc, cs.drop_last(), name)
    }
}

/// What a member element denotes: its dimension attribute and own text.
/// Missing either makes the segment malformed.
pub open spec fn member_of(doc: XmlDocument, j: int) -> Option<SegmentMemberView> {
    match (node_attr_of(doc, j, "dimension"@), node_text(doc, j)) {
        (Some(d), Some(v)) => Some(SegmentMemberView { dimension: d, value: v }),
        _ => None,
    }
}

/// What the element children `cs` of a segment element denote, in document
/// order; `None` as soon as one member is malformed.
pub open spec fn members_of(doc: XmlDocument, cs: Seq<usize>) -> Option<Seq<SegmentMemberView>>
    decreases cs.len(),
{
    if cs.len() == 0 {
        Some(Seq::empty())
    } else {
        match members_of(doc, cs.drop_last()) {
            None => None,
            Some(pre) => {
                let j = cs.last() as int;
                if !doc.nodes@[j].is_element {
                    Some(pre)
                } else {
                    match member_of(doc, j) {
                        Some(m) => Some(pre.push(m)),
                        None => None,
                    }
                }
            },
        }
    }
}

/// What an entity element denotes: `Some(None)` when it has no segment
/// child (a consolidated, entity-wide context), `Some(Some(members))` for
/// a parsed segment, `None` when a segment member is malformed.
pub open spec fn resolve_entity(doc: XmlDocument, e: int) -> Option<Option<Seq<SegmentMemberView>>> {
    match last_named(doc, children_of(doc, e), "segment"@) {
        None => Some(None),
        Some(s) => match members_of(doc, children_of(doc, s as int)) {
            None => None,
            Some(ms) => Some(Some(ms)),
        },
    }
}

/// How a period element classifies: an `instant` child alone is an
/// instant; `startDate` and `endDate` children without an `instant` are a
/// duration; anything else, or an unparsable or missing date text, is
/// malformed.
pub open spec fn classify_period(doc: XmlDocument, p: int) -> Option<Period> {
    let cs = children_of(doc, p);
    let ins = last_named(doc, cs, "instant"@);
    let st = last_named(doc, cs, "startDate"@);
    let en = last_named(doc, cs, "endDate"@);
    if ins is Some && st is None && en is None {
        match node_text(doc, ins->Some_0 as int) {
            Some(t) => match spec_parse_date(t) {
                Some(d) => Some(Period::Instant { date: d }),
                None => None,
            },
            None => None,
        }
    } else if ins is None && st is Some && en is Some {
        match (node_text(doc, st->Some_0 as int), node_text(doc, en->Some_0 as int)) {
            (Some(ts), Some(te)) => match (spec_parse_date(ts), spec_parse_date(te)) {
                (Some(ds), Some(de)) => Some(
                    Period::Duration { start_date: ds, end_date: de },
                ),
                _ => None,
            },
            _ => None,
        }
    } else {
        None
    }
}

/// What a context element denotes: its id, entity segment and classified
/// period; `None` when any required part is missing or malformed.
pub open spec fn resolve_context(doc: XmlDocument, c: int) -> Option<ContextView> {
    let cs = children_of(doc, c);
    match (ctx_id_of(doc, c), last_named(doc, cs, "entity"@), last_named(doc, cs, "period"@)) {
        (Some(id), Some(e), Some(p)) => match (
            resolve_entity(doc, e as int),
            classify_period(doc, p as int),
        ) {
            (Some(segment), Some(period)) => Some(ContextView { id, segment, period }),
            _ => None,
        },
        _ => None,
    }
}

// ---------------------------------------------------------------------------
// Executable resolution, verified against the model above.
// ---------------------------------------------------------------------------
/// Finds the last element child of `parent` carrying the given tag name.
fn find_last_named(doc: &XmlDocument, parent: usize, name: &str) -> (r: Option<usize>)
    requires
        doc.wf(),
        parent < doc.nodes@.len(),
    ensures
        r == last_named(*doc, children_of(*doc, parent as int), name@),
        r matches Some(j) ==> j < parent,
{
    let cs = &doc.nodes[parent].children;
    let n = cs.len();
    let mut found: Option<usize> = None;
    let mut i: usize = 0;
    proof {
        assert(cs@.take(0) =~= Seq::<usize>::empty());
    }
    while i < n
        invariant
            doc.wf(),
            parent < doc.nodes@.len(),
            cs == doc.nodes@[parent as int].children,
            n == cs@.len(),
            i <= n,
            found == last_named(*doc, cs@.take(i as int), name@),
            found matches Some(j) ==> j < parent,
        decreases n - i,
    {
        let j = cs[i];
        proof {
            assert(cs@.take(i + 1).drop_last() =~= cs@.take(i as int));
            assert(cs@.take(i + 1).last() == cs@[i as int]);
        }
        if doc.nodes[j].is_element && string_eq_str(&doc.nodes[j].tag, name) {
            found = Some(j);
        }
        i = i + 1;
    }
    proof {
        assert(cs@.take(n as int) =~= cs@);
    }
    found
}

/// A malformed member stays malformed however many children follow it.
proof fn lemma_members_none_extends(doc: XmlDocument, cs: Seq<usize>, k: int)
    requires
        0 <= k <= cs.len(),
        members_of(doc, cs.take(k)) is None,
    ensures
        members_of(doc, cs) is None,
    decreases cs.len() - k,
{
    if k < cs.len() {
        assert(cs.take(k + 1).drop_last() =~= cs.take(k));
        lemma_members_none_extends(doc, cs, k + 1);
    } else {
        assert(cs.take(k) =~= cs);
    }
}

/// Parses the member elements under a segment element, in document order.
fn parse_segment_members(doc: &XmlDocument, seg: usize) -> (r: Result<Vec<SegmentMember>, ()>)
    requires
        doc.wf(),
        seg < doc.nodes@.len(),
    ensures
        match r {
            Ok(ms) => members_of(*doc, children_of(*doc, seg as int)) == Some(
                ms@.map_values(|m: SegmentMember| m@),
            ),
            Err(e) => members_of(*doc, children_of(*doc, seg as int)) is None,
        },
{
    let cs = &doc.nodes[seg].children;
    let n = cs.len();
    let mut ms: Vec<SegmentMember> = Vec::new();
    let mut i: usize = 0;
    proof {
        assert(cs@.take(0) =~= Seq::<usize>::empty());
        assert(members_of(*doc, cs@.take(0)) == Some(ms@.map_values(|m: SegmentMember| m@)))
            by {
            assert(ms@.map_values(|m: SegmentMember| m@) =~= Seq::<SegmentMemberView>::empty());
        }
    }
    while i < n
        invariant
            doc.wf(),
            seg < doc.nodes@.len(),
            cs == doc.nodes@[seg as int].children,
            n == cs@.len(),
            i <= n,
            members_of(*doc, cs@.take(i as int)) == Some(ms@.map_values(|m: SegmentMember| m@)),
        decreases n - i,
    {
        let j = cs[i];
        proof {
            assert(cs@.take(i + 1).drop_last() =~= cs@.take(i as int));
            assert(cs@.take(i + 1).last() == cs@[i as int]);
        }
        if doc.nodes[j].is_element {
            let dim = crate::tree::node_attr(&doc.nodes[j], "dimension");
            let text = &doc.nodes[j].text;
            match (dim, text) {
                (Some(d), Some(t)) => {
                    let m = SegmentMember { dimension: d, value: t.clone() };
                    ms.push(m);
                    proof {
                        assert(ms@.map_values(|m: SegmentMember| m@) =~= ms@.drop_last()
                            .map_values(|m: SegmentMember| m@).push(ms@.last()@));
                    }
                },
                _ => {
                    proof {
                        assert(members_of(*doc, cs@.take(i + 1)) is None);
                        lemma_members_none_extends(*doc, cs@, i + 1);
                    }
                    return Err(());
                },
            }
        }
        i = i + 1;
    }
    proof {
        assert(cs@.take(n as int) =~= cs@);
    }
    Ok(ms)
}

/// Classifies the period subtree under a period element.
fn parse_period(doc: &XmlDocument, p: usize) -> (r: Result<Period, ()>)
    requires
        doc.wf(),
        p < doc.nodes@.len(),
    ensures
        match r {
            Ok(per) => classify_period(*doc, p as int) == Some(per),
            Err(e) => classify_period(*doc, p as int) is None,
        },
{
    let ins = find_last_named(doc, p, "instant");
    let st = find_last_named(doc, p, "startDate");
    let en = find_last_named(doc, p, "endDate");
    match (ins, st, en) {
        (Some(i), None, None) => match &doc.nodes[i].text {
            Some(t) => match crate::date::parse_date(t.as_str()) {
                Some(d) => Ok(Period::Instant { date: d }),
                None => Err(()),
            },
            None => Err(()),
        },
        (None, Some(s), Some(e)) => {
            let ts = match &doc.nodes[s].text {
                Some(t) => t,
                None => {
                    return Err(());
                },
            };
            let te = match &doc.nodes[e].text {
                Some(t) => t,
                None => {
                    return Err(());
                },
            };
            match (crate::date::parse_date(ts.as_str()), crate::date::parse_date(te.as_str())) {
                (Some(ds), Some(de)) => Ok(Period::Duration { start_date: ds, end_date: de }),
                _ => Err(()),
            }
        },
        _ => Err(()),
    }
}

/// Resolves one `<context>` element into a `Context`, or reports that it
/// is malformed.
fn parse_context(doc: &XmlDocument, c: usize) -> (r: Result<Context, ()>)
    requires
        doc.wf(),
        c < doc.nodes@.len(),
    ensures
        match r {
            Ok(ctx) => resolve_context(*doc, c as int) == Some(ctx@),
            Err(e) => resolve_context(*doc, c as int) is None,
        },
{
    let id = match crate::tree::node_attr(&doc.nodes[c], "id") {
        Some(id) => id,
        None => {
            return Err(());
        },
    };
    let e = match find_last_named(doc, c, "entity") {
        Some(e) => e,
        None => {
            return Err(());
        },
    };
    let p = match find_last_named(doc, c, "period") {
        Some(p) => p,
        None => {
            return Err(());
        },
    };
    let segment: Option<Segment> = match find_last_named(doc, e, "segment") {
        None => None,
        Some(s) => match parse_segment_members(doc, s) {
            Ok(ms) => Some(Segment { members: ms }),
            Err(_) => {
                return Err(());
            },
        },
    };
    let period = match parse_period(doc, p) {
        Ok(per) => per,
        Err(_) => {
            return Err(());
        },
    };
    Ok(Context { id, entity: Entity { segment }, period })
}

// ---------------------------------------------------------------------------
// Fact groups: selection, the context table, and the join.
// ---------------------------------------------------------------------------
/// One fact element joined to its resolved context.  `id` is the
/// element's own `id` attribute, `tag` the concept prefix the group was
/// extracted for, `text` the element's raw disclosed value.
#[derive(Debug)]
pub struct ElementSingle {
    pub id: Option<String>,
    pub tag: String,
    pub context: Context,
    pub text: Option<String>,
}

#[verifier::ext_equal]
pub struct FactView {
    pub id: Option<Seq<char>>,
    pub tag: Seq<char>,
    pub context: ContextView,
    pub text: Option<Seq<char>>,
}

impl View for ElementSingle {
    type V = FactView;

    open spec fn view(&self) -> FactView {
        FactView {
            id: match self.id {
                Some(ref s) => Some(s@),
                None => None,
            },
            tag: self.tag@,
            context: self.context@,
            text: match self.text {
                Some(ref s) => Some(s@),
                None => None,
            },
        }
    }
}

impl ElementSingle {
    /// The fact is consolidated: its context carries no segment.
    pub fn no_segment(&self) -> (r: bool)
        ensures
            r == (self@.context.segment is None),
    {
        self.context.entity.segment.is_none()
    }
}

/// The candidate facts for one concept: every selected element joined to
/// its context, in document order, together with the count of elements
/// skipped because their context reference did not resolve (the per-fact
/// skip policy: such facts never abort the group).
#[derive(Debug)]
pub struct Group {
    pub tag: String,
    pub facts: Vec<ElementSingle>,
    pub skipped: usize,
}

/// Fact selection: an element whose tag starts with the concept prefix
/// and is not a narrative text block.
pub open spec fn fact_matches(doc: XmlDocument, j: int, tag: Seq<char>) -> bool {
    &&& doc.nodes@[j].is_element
    &&& spec_starts_with(doc.nodes@[j].tag@, tag)
    &&& !spec_ends_with(doc.nodes@[j].tag@, "TextBlock"@)
}

/// The indices in `cs` that select as facts for `tag`, in order.
pub open spec fn filter_facts(doc: XmlDocument, cs: Seq<usize>, tag: Seq<char>) -> Seq<usize>
    decreases cs.len(),
{
    if cs.len() == 0 {
        Seq::empty()
    } else {
        let p = filter_facts(doc, cs.drop_last(), tag);
        if fact_matches(doc, cs.last() as int, tag) {
            p.push(cs.last())
        } else {
            p
        }
    }
}

/// The root element's children.
pub open spec fn root_children(doc: XmlDocument) -> Seq<usize> {
    children_of(doc, doc.spec_root())
}

/// The fact elements of the group for `tag`: matching children of the
/// root, in document order.
pub open spec fn group_nodes(doc: XmlDocument, tag: Seq<char>) -> Seq<usize> {
    filter_facts(doc, root_children(doc), tag)
}

/// The context reference of a fact element.
pub open spec fn fact_ref(doc: XmlDocument, j: int) -> Option<Seq<char>> {
    node_attr_of(doc, j, "contextRef"@)
}

/// The context ids referenced by the group's elements, duplicates kept.
pub open spec fn refs_of(doc: XmlDocument, gs: Seq<usize>) -> Seq<Seq<char>>
    decreases gs.len(),
{
    if gs.len() == 0 {
        Seq::empty()
    } else {
        let p = refs_of(doc, gs.drop_last());
        match fact_ref(doc, gs.last() as int) {
            Some(r) => p.push(r),
            None => p,
        }
    }
}

/// `id` is referenced by some element of the group for `tag`: only such
/// candidate ids have their contexts resolved at all.
pub open spec fn is_candidate_id(doc: XmlDocument, tag: Seq<char>, id: Seq<char>) -> bool {
    refs_of(doc, group_nodes(doc, tag)).contains(id)
}

/// Node `j` is a `<context>` element whose id the group references.  A
/// context element without an id can never be referenced and is ignored.
pub open spec fn is_candidate_ctx(doc: XmlDocument, j: int, tag: Seq<char>) -> bool {
    &&& is_named_elem(doc, j, "context"@)
    &&& match ctx_id_of(doc, j) {
        Some(id) => is_candidate_id(doc, tag, id),
        None => false,
    }
}

/// The candidate context elements among `cs`, in document order.
pub open spec fn filter_candidates(doc: XmlDocument, cs: Seq<usize>, tag: Seq<char>) -> Seq<usize>
    decreases cs.len(),
{
    if cs.len() == 0 {
        Seq::empty()
    } else {
        let p = filter_candidates(doc, cs.drop_last(), tag);
        if is_candidate_ctx(doc, cs.last() as int, tag) {
            p.push(cs.last())
        } else {
            p
        }
    }
}

/// The context table's nodes for the group: candidate context elements
/// among the root's children.
pub open spec fn table_nodes(doc: XmlDocument, tag: Seq<char>) -> Seq<usize> {
    filter_candidates(doc, root_children(doc), tag)
}

/// Every candidate context of the group resolves; otherwise extraction of
/// the whole group is a structure error.
pub open spec fn table_ok(doc: XmlDocument, tag: Seq<char>) -> bool {
    forall|k: int|
        0 <= k < table_nodes(doc, tag).len() ==> resolve_context(
            doc,
            #[trigger] table_nodes(doc, tag)[k] as int,
        ) is Some
}

/// The resolved context table, in document order.
pub open spec fn table_views(doc: XmlDocument, tag: Seq<char>) -> Seq<ContextView> {
    table_nodes(doc, tag).map_values(|j: usize| resolve_context(doc, j as int)->Some_0)
}

/// The id of the first candidate context that fails to resolve, if any:
/// the id a structure error reports.
pub open spec fn first_unresolvable(doc: XmlDocument, cs: Seq<usize>, tag: Seq<char>) -> Option<
    Seq<char>,
>
    decreases cs.len(),
{
    if cs.len() == 0 {
        None
    } else if is_candidate_ctx(doc, cs[0] as int, tag) && resolve_context(
        doc,
        cs[0] as int,
    ) is None {
        Some(ctx_id_of(doc, cs[0] as int)->Some_0)
    } else {
        first_unresolvable(doc, cs.drop_first(), tag)
    }
}

/// Looks a context id up in the table: the first resolved context with
/// that id wins, mirroring document order.
pub open spec fn find_ctx(table: Seq<ContextView>, id: Seq<char>) -> Option<ContextView>
    decreases table.len(),
{
    if table.len() == 0 {
        None
    } else if table[0].id == id {
        Some(table[0])
    } else {
        find_ctx(table.drop_first(), id)
    }
}

/// What one fact element joins to: nothing when its context reference is
/// missing or absent from the table (the element is then skipped).
pub open spec fn join_fact(
    doc: XmlDocument,
    j: int,
    tag: Seq<char>,
    table: Seq<ContextView>,
) -> Option<FactView> {
    match fact_ref(doc, j) {
        None => None,
        Some(cr) => match find_ctx(table, cr) {
            None => None,
            Some(cv) => Some(
                FactView {
                    id: node_attr_of(doc, j, "id"@),
                    tag: tag,
                    context: cv,
                    text: node_text(doc, j),
                },
            ),
        },
    }
}

/// The joined facts for the group nodes `gs`, in document order,
/// unresolvable elements skipped.
pub open spec fn join_seq(
    doc: XmlDocument,
    gs: Seq<usize>,
    tag: Seq<char>,
    table: Seq<ContextView>,
) -> Seq<FactView>
    decreases gs.len(),
{
    if gs.len() == 0 {
        Seq::empty()
    } else {
        let p = join_seq(doc, gs.drop_last(), tag, table);
        match join_fact(doc, gs.last() as int, tag, table) {
            Some(f) => p.push(f),
            None => p,
        }
    }
}

/// The group's joined facts: what `Group::extract` returns when every
/// candidate context resolves.
pub open spec fn group_facts(doc: XmlDocument, tag: Seq<char>) -> Seq<FactView> {
    join_seq(doc, group_nodes(doc, tag), tag, table_views(doc, tag))
}

/// What `filter_candidates` keeps of a prefix, it keeps of the whole.
proof fn lemma_filter_candidates_prefix(doc: XmlDocument, cs: Seq<usize>, tag: Seq<char>, m: int)
    requires
        0 <= m <= cs.len(),
    ensures
        filter_candidates(doc, cs.take(m), tag).is_prefix_of(filter_candidates(doc, cs, tag)),
    decreases cs.len() - m,
{
    if m < cs.len() {
        assert(cs.take(m + 1).drop_last() =~= cs.take(m));
        assert(cs.take(m + 1).last() == cs[m]);
        lemma_filter_candidates_prefix(doc, cs, tag, m + 1);
        assert(filter_candidates(doc, cs.take(m), tag).is_prefix_of(
            filter_candidates(doc, cs.take(m + 1), tag),
        ));
    } else {
        assert(cs.take(m) =~= cs);
        assert(filter_candidates(doc, cs, tag).is_prefix_of(filter_candidates(doc, cs, tag)));
    }
}

/// Whether one of the strings in `v` reads `s`.
fn contains_str(v: &Vec<String>, s: &String) -> (r: bool)
    ensures
        r == v@.map_values(|x: String| x@).contains(s@),
{
    let n = v.len();
    let mut i: usize = 0;
    while i < n
        invariant
            n == v@.len(),
            i <= n,
            forall|k: int| 0 <= k < i ==> (#[trigger] v@[k])@ != s@,
        decreases n - i,
    {
        if v[i].eq(s) {
            proof {
                assert(v@.map_values(|x: String| x@)[i as int] == s@);
            }
            return true;
        }
        i = i + 1;
    }
    false
}

/// Finds the first table entry with the given context id.
fn find_in_table<'a>(table: &'a Vec<Context>, id: &String) -> (r: Option<&'a Context>)
    ensures
        match r {
            Some(c) => find_ctx(table@.map_values(|c: Context| c@), id@) == Some(c@),
            None => find_ctx(table@.map_values(|c: Context| c@), id@) is None,
        },
{
    let ghost tv = table@.map_values(|c: Context| c@);
    let n = table.len();
    let mut i: usize = 0;
    proof {
        assert(tv.skip(0) =~= tv);
    }
    while i < n
        invariant
            n == table@.len(),
            tv == table@.map_values(|c: Context| c@),
            i <= n,
            find_ctx(tv, id@) == find_ctx(tv.skip(i as int), id@),
        decreases n - i,
    {
        proof {
            assert(tv.skip(i as int)[0] == tv[i as int]);
            assert(tv.skip(i as int).drop_first() =~= tv.skip(i + 1));
        }
        if table[i].id.eq(id) {
            return Some(&table[i]);
        }
        i = i + 1;
    }
    proof {
        assert(tv.skip(n as int) =~= Seq::<ContextView>::empty());
    }
    None
}

impl Group {
    /// Extracts the fact group for a concept prefix: selects the root's
    /// matching element children, resolves the contexts their references
    /// name, and joins each element to its context, skipping elements
    /// whose reference does not resolve.  A malformed candidate context
    /// aborts the group with a structure error naming it.
    pub fn extract(doc: &XmlDocument, tag: &str) -> (r: Result<Group, Error>)
        requires
            doc.wf(),
        ensures
            r matches Ok(g) ==> {
                &&& g.tag@ == tag@
                &&& table_ok(*doc, tag@)
                &&& g.facts@.map_values(|f: ElementSingle| f@) == group_facts(*doc, tag@)
                &&& g.skipped + g.facts@.len() == group_nodes(*doc, tag@).len()
            },
            r matches Err(e) ==> {
                &&& !table_ok(*doc, tag@)
                &&& e matches Error::Structure { concept, context_id } && concept@ == tag@ && Some(
                    context_id@,
                ) == first_unresolvable(*doc, root_children(*doc), tag@)
            },
    {
        let root = doc.root();
        let rcs = &doc.nodes[root].children;
        let rn = rcs.len();
        // Pass one: select the group's fact elements.
        let mut gnodes: Vec<usize> = Vec::new();
        let mut i: usize = 0;
        proof {
            assert(rcs@.take(0) =~= Seq::<usize>::empty());
        }
        while i < rn
            invariant
                doc.wf(),
                rcs == doc.nodes@[doc.spec_root()].children,
                rn == rcs@.len(),
                i <= rn,
                gnodes@ == filter_facts(*doc, rcs@.take(i as int), tag@),
                forall|k: int| 0 <= k < gnodes@.len() ==> (#[trigger] gnodes@[k]) < doc.spec_root(),
            decreases rn - i,
        {
            let j = rcs[i];
            proof {
                assert(rcs@.take(i + 1).drop_last() =~= rcs@.take(i as int));
                assert(rcs@.take(i + 1).last() == rcs@[i as int]);
            }
            if doc.nodes[j].is_element && str_starts_with(doc.nodes[j].tag.as_str(), tag)
                && !str_ends_with(doc.nodes[j].tag.as_str(), "TextBlock") {
                gnodes.push(j);
            }
            i = i + 1;
        }
        proof {
            assert(rcs@.take(rn as int) =~= rcs@);
        }
        // Pass two: the context ids the group references.
        let mut refs: Vec<String> = Vec::new();
        let gn = gnodes.len();
        let mut i: usize = 0;
        proof {
            assert(gnodes@.take(0) =~= Seq::<usize>::empty());
            assert(refs@.map_values(|x: String| x@) =~= refs_of(*doc, gnodes@.take(0)));
        }
        while i < gn
            invariant
                doc.wf(),
                gn == gnodes@.len(),
                i <= gn,
                forall|k: int| 0 <= k < gnodes@.len() ==> (#[trigger] gnodes@[k]) < doc.spec_root(),
                refs@.map_values(|x: String| x@) == refs_of(*doc, gnodes@.take(i as int)),
            decreases gn - i,
        {
            let j = gnodes[i];
            proof {
                assert(gnodes@.take(i + 1).drop_last() =~= gnodes@.take(i as int));
                assert(gnodes@.take(i + 1).last() == gnodes@[i as int]);
            }
            match crate::tree::node_attr(&doc.nodes[j], "contextRef") {
                Some(cr) => {
                    refs.push(cr);
                    proof {
                        assert(refs@.map_values(|x: String| x@) =~= refs@.drop_last().map_values(
                            |x: String| x@,
                        ).push(refs@.last()@));
                    }
                },
                None => {},
            }
            i = i + 1;
        }
        proof {
            assert(gnodes@.take(gn as int) =~= gnodes@);
        }
        // Pass three: resolve the candidate contexts, in document order.
        let mut table: Vec<Context> = Vec::new();
        let mut i: usize = 0;
        proof {
            assert(rcs@.take(0) =~= Seq::<usize>::empty());
            assert(rcs@.skip(0) =~= rcs@);
        }
        while i < rn
            invariant
                doc.wf(),
                rcs == doc.nodes@[doc.spec_root()].children,
                rn == rcs@.len(),
                i <= rn,
                gnodes@ == group_nodes(*doc, tag@),
                refs@.map_values(|x: String| x@) == refs_of(*doc, gnodes@),
                table@.len() == filter_candidates(*doc, rcs@.take(i as int), tag@).len(),
                forall|k: int|
                    0 <= k < table@.len() ==> resolve_context(
                        *doc,
                        #[trigger] filter_candidates(*doc, rcs@.take(i as int), tag@)[k] as int,
                    ) == Some(table@[k]@),
                first_unresolvable(*doc, rcs@, tag@) == first_unresolvable(
                    *doc,
                    rcs@.skip(i as int),
                    tag@,
                ),
            decreases rn - i,
        {
            let j = rcs[i];
            let ghost fc = filter_candidates(*doc, rcs@.take(i as int), tag@);
            proof {
                assert(rcs@.take(i + 1).drop_last() =~= rcs@.take(i as int));
                assert(rcs@.take(i + 1).last() == rcs@[i as int]);
                assert(rcs@.skip(i as int)[0] == rcs@[i as int]);
                assert(rcs@.skip(i as int).drop_first() =~= rcs@.skip(i + 1));
            }
            if doc.nodes[j].is_element && string_eq_str(&doc.nodes[j].tag, "context") {
                match crate::tree::node_attr(&doc.nodes[j], "id") {
                    Some(id) => {
                        if contains_str(&refs, &id) {
                            proof {
                                assert(is_candidate_ctx(*doc, j as int, tag@));
                                assert(filter_candidates(*doc, rcs@.take(i + 1), tag@) == fc.push(
                                    j,
                                ));
                            }
                            match parse_context(doc, j) {
                                Ok(ctx) => {
                                    table.push(ctx);
                                },
                                Err(_) => {
                                    proof {
                                        assert(first_unresolvable(*doc, rcs@.skip(i as int), tag@)
                                            == Some(id@));
                                        lemma_filter_candidates_prefix(*doc, rcs@, tag@, i + 1);
                                        assert(fc.push(j) =~= table_nodes(*doc, tag@).subrange(
                                            0,
                                            fc.len() as int + 1,
                                        ));
                                        assert(table_nodes(*doc, tag@)[fc.len() as int] == fc.push(
                                            j,
                                        )[fc.len() as int]);
                                        assert(table_nodes(*doc, tag@)[fc.len() as int] == j);
                                        assert(!table_ok(*doc, tag@));
                                    }
                                    return Err(
                                        Error::Structure {
                                            concept: String::from_str(tag),
                                            context_id: id,
                                        },
                                    );
                                },
                            }
                        } else {
                            proof {
                                assert(!is_candidate_ctx(*doc, j as int, tag@));
                            }
                        }
                    },
                    None => {
                        proof {
                            assert(!is_candidate_ctx(*doc, j as int, tag@));
                        }
                    },
                }
            } else {
                proof {
                    assert(!is_candidate_ctx(*doc, j as int, tag@));
                }
            }
            i = i + 1;
        }
        proof {
            assert(rcs@.take(rn as int) =~= rcs@);
            assert(rcs@.skip(rn as int) =~= Seq::<usize>::empty());
            assert(table@.map_values(|c: Context| c@) =~= table_views(*doc, tag@));
        }
        // Pass four: join each fact element to its context.
        let mut facts: Vec<ElementSingle> = Vec::new();
        let mut skipped: usize = 0;
        let mut i: usize = 0;
        proof {
            assert(gnodes@.take(0) =~= Seq::<usize>::empty());
            assert(facts@.map_values(|f: ElementSingle| f@) =~= join_seq(
                *doc,
                gnodes@.take(0),
                tag@,
                table_views(*doc, tag@),
            ));
        }
        while i < gn
            invariant
                doc.wf(),
                gn == gnodes@.len(),
                i <= gn,
                forall|k: int| 0 <= k < gnodes@.len() ==> (#[trigger] gnodes@[k]) < doc.spec_root(),
                gnodes@ == group_nodes(*doc, tag@),
                table@.map_values(|c: Context| c@) == table_views(*doc, tag@),
                facts@.map_values(|f: ElementSingle| f@) == join_seq(
                    *doc,
                    gnodes@.take(i as int),
                    tag@,
                    table_views(*doc, tag@),
                ),
                skipped + facts@.len() == i,
            decreases gn - i,
        {
            let j = gnodes[i];
            proof {
                assert(gnodes@.take(i + 1).drop_last() =~= gnodes@.take(i as int));
                assert(gnodes@.take(i + 1).last() == gnodes@[i as int]);
            }
            match crate::tree::node_attr(&doc.nodes[j], "contextRef") {
                None => {
                    skipped = skipped + 1;
                },
                Some(cr) => match find_in_table(&table, &cr) {
                    None => {
                        skipped = skipped + 1;
                    },
                    Some(ctx) => {
                        let text: Option<String> = match &doc.nodes[j].text {
                            Some(t) => Some(t.clone()),
                            None => None,
                        };
                        let f = ElementSingle {
                            id: crate::tree::node_attr(&doc.nodes[j], "id"),
                            tag: String::from_str(tag),
                            context: ctx.clone(),
                            text,
                        };
                        facts.push(f);
                        proof {
                            assert(facts@.map_values(|f: ElementSingle| f@) =~= facts@.drop_last()
                                .map_values(|f: ElementSingle| f@).push(facts@.last()@));
                        }
                    },
                },
            }
            i = i + 1;
        }
        proof {
            assert(gnodes@.take(gn as int) =~= gnodes@);
        }
        Ok(Group { tag: String::from_str(tag), facts, skipped })
    }
}

// ---------------------------------------------------------------------------
// Projections: filter, deduplicate by context id, map to (period, value).
// ---------------------------------------------------------------------------
/// The context is broken down and one of its members carries `target` as
/// its value.
pub open spec fn has_member_value(cv: ContextView, target: Seq<char>) -> bool {
    cv.segment matches Some(ms) && exists|k: int| 0 <= k < ms.len() && ms[k].value == target
}

/// Plain instant projection: instant period, consolidated (no segment),
/// and a disclosed value.
pub open spec fn q_plain_instant(f: FactView) -> bool {
    f.context.period is Instant && f.context.segment is None && f.text is Some
}

/// Segment-targeted instant projection: instant period, a segment member
/// valued `target`, and a disclosed value.
pub open spec fn q_segment_instant(f: FactView, target: Seq<char>) -> bool {
    f.context.period is Instant && has_member_value(f.context, target) && f.text is Some
}

/// Plain duration projection: duration period, consolidated, and a
/// disclosed value.
pub open spec fn q_plain_duration(f: FactView) -> bool {
    f.context.period is Duration && f.context.segment is None && f.text is Some
}

/// Some entry of `s` belongs to context `id`.
pub open spec fn seen_id(s: Seq<FactView>, id: Seq<char>) -> bool {
    exists|k: int| 0 <= k < s.len() && s[k].context.id == id
}

/// The deduplicated projection: of the facts satisfying `q`, the first
/// one in document order per distinct context id, in order of first
/// occurrence.  This is the engine's dedup policy: a filer repeating a
/// fact under one context (say with different decimals) yields one entry.
pub open spec fn dedup_by_ctx(s: Seq<FactView>, q: spec_fn(FactView) -> bool) -> Seq<FactView>
    decreases s.len(),
{
    if s.len() == 0 {
        Seq::empty()
    } else {
        let p = dedup_by_ctx(s.drop_last(), q);
        if q(s.last()) && !seen_id(p, s.last().context.id) {
            p.push(s.last())
        } else {
            p
        }
    }
}

/// The (period, value) records of a fact sequence.
pub open spec fn items_of(s: Seq<FactView>) -> Seq<(Period, Seq<char>)> {
    s.map_values(|f: FactView| (f.context.period, f.text->Some_0))
}

/// The view of a projection result.
pub open spec fn pairs_view(r: Seq<(Period, String)>) -> Seq<(Period, Seq<char>)> {
    r.map_values(|p: (Period, String)| (p.0, p.1@))
}

/// The fact views of a group.
pub open spec fn facts_view(facts: Seq<ElementSingle>) -> Seq<FactView> {
    facts.map_values(|f: ElementSingle| f@)
}

/// A list of context ids mirrors `d` exactly when membership agrees.
proof fn lemma_seen_equiv(d: Seq<FactView>, seen: Seq<Seq<char>>, id: Seq<char>)
    requires
        seen == d.map_values(|f: FactView| f.context.id),
    ensures
        seen.contains(id) == seen_id(d, id),
{
    if seen.contains(id) {
        let k = choose|k: int| 0 <= k < seen.len() && seen[k] == id;
        assert(d[k].context.id == id);
    }
    if seen_id(d, id) {
        let k = choose|k: int| 0 <= k < d.len() && d[k].context.id == id;
        assert(seen[k] == id);
        assert(seen.contains(id));
    }
}

/// Whether the segment holds a member valued `target`.
fn segment_has_value(seg: &Segment, target: &str) -> (r: bool)
    ensures
        r == exists|k: int| 0 <= k < seg@.len() && (#[trigger] seg@[k]).value == target@,
{
    let n = seg.members.len();
    let mut i: usize = 0;
    while i < n
        invariant
            n == seg.members@.len(),
            i <= n,
            forall|k: int| 0 <= k < i ==> (#[trigger] seg@[k]).value != target@,
        decreases n - i,
    {
        if string_eq_str(&seg.members[i].value, target) {
            proof {
                assert(seg@[i as int].value == target@);
            }
            return true;
        }
        i = i + 1;
    }
    false
}

// ---------------------------------------------------------------------------
// Laws of the deduplicated projections.
// ---------------------------------------------------------------------------
/// Law: a deduplicated projection never holds two entries for one context
/// id.  However many facts share a context id, at most one entry comes of
/// it.
pub proof fn lemma_dedup_no_duplicate_ids(s: Seq<FactView>, q: spec_fn(FactView) -> bool)
    ensures
        forall|a: int, b: int|
            0 <= a < b < dedup_by_ctx(s, q).len() ==> (#[trigger] dedup_by_ctx(s, q)[a]).context.id
                != (#[trigger] dedup_by_ctx(s, q)[b]).context.id,
    decreases s.len(),
{
    if s.len() > 0 {
        let t = s.drop_last();
        let p = dedup_by_ctx(t, q);
        let d = dedup_by_ctx(s, q);
        lemma_dedup_no_duplicate_ids(t, q);
        if q(s.last()) && !seen_id(p, s.last().context.id) {
            assert forall|a: int, b: int| 0 <= a < b < d.len() implies (
            #[trigger] d[a]).context.id != (#[trigger] d[b]).context.id by {
                if b == d.len() - 1 {
                    assert(d[a] == p[a]);
                    if p[a].context.id == s.last().context.id {
                        assert(seen_id(p, s.last().context.id));
                    }
                } else {
                    assert(d[a] == p[a] && d[b] == p[b]);
                }
            }
        }
    }
}

/// Law: every entry of a deduplicated projection is one of the input
/// facts and satisfies the projection's filter.
pub proof fn lemma_dedup_entries_qualify(s: Seq<FactView>, q: spec_fn(FactView) -> bool)
    ensures
        forall|a: int|
            0 <= a < dedup_by_ctx(s, q).len() ==> q(#[trigger] dedup_by_ctx(s, q)[a]) && exists|
                j: int,
            | 0 <= j < s.len() && s[j] == dedup_by_ctx(s, q)[a],
    decreases s.len(),
{
    if s.len() > 0 {
        let t = s.drop_last();
        let p = dedup_by_ctx(t, q);
        let d = dedup_by_ctx(s, q);
        lemma_dedup_entries_qualify(t, q);
        assert forall|a: int| 0 <= a < d.len() implies q(#[trigger] d[a]) && exists|j: int|
            0 <= j < s.len() && s[j] == d[a] by {
            if a < p.len() {
                assert(d[a] == p[a]);
                let j = choose|j: int| 0 <= j < t.len() && t[j] == p[a];
                assert(s[j] == d[a]);
            } else {
                assert(d[a] == s.last());
                assert(s[s.len() - 1] == d[a]);
            }
        }
    }
}

/// Law: first occurrence in document order wins.  A qualifying fact with
/// no earlier qualifying fact sharing its context id is the entry the
/// projection keeps for that id.
pub proof fn lemma_dedup_first_wins(s: Seq<FactView>, q: spec_fn(FactView) -> bool, j: int)
    requires
        0 <= j < s.len(),
        q(s[j]),
        forall|k: int| 0 <= k < j ==> !(q(#[trigger] s[k]) && s[k].context.id == s[j].context.id),
    ensures
        exists|a: int| 0 <= a < dedup_by_ctx(s, q).len() && dedup_by_ctx(s, q)[a] == s[j],
    decreases s.len(),
{
    let t = s.drop_last();
    let p = dedup_by_ctx(t, q);
    let d = dedup_by_ctx(s, q);
    if j == s.len() - 1 {
        if seen_id(p, s.last().context.id) {
            let a = choose|a: int| 0 <= a < p.len() && p[a].context.id == s.last().context.id;
            lemma_dedup_entries_qualify(t, q);
            let k = choose|k: int| 0 <= k < t.len() && t[k] == p[a];
            assert(s[k] == t[k]);
            assert(q(s[k]) && s[k].context.id == s[j].context.id);
            assert(false);
        }
        assert(d == p.push(s.last()));
        assert(d[d.len() - 1] == s[j]);
    } else {
        assert(t[j] == s[j]);
        assert forall|k: int| 0 <= k < j implies !(q(#[trigger] t[k]) && t[k].context.id
            == t[j].context.id) by {
            assert(t[k] == s[k]);
        }
        lemma_dedup_first_wins(t, q, j);
        let a = choose|a: int| 0 <= a < p.len() && p[a] == t[j];
        if q(s.last()) && !seen_id(p, s.last().context.id) {
            assert(d[a] == p[a]);
        } else {
            assert(d == p);
        }
        assert(d[a] == s[j]);
    }
}

/// Law: the plain projections keep only consolidated instant or duration
/// facts: no entry of a plain projection carries a segment, so a fact
/// whose context has a segment is excluded even when its tag matches
/// exactly.
pub proof fn lemma_plain_projection_consolidated(s: Seq<FactView>, d: Seq<FactView>)
    requires
        d == dedup_by_ctx(s, |f: FactView| q_plain_instant(f)) || d == dedup_by_ctx(
            s,
            |f: FactView| q_plain_duration(f),
        ),
    ensures
        forall|a: int| 0 <= a < d.len() ==> (#[trigger] d[a]).context.segment is None,
{
    lemma_dedup_entries_qualify(s, |f: FactView| q_plain_instant(f));
    lemma_dedup_entries_qualify(s, |f: FactView| q_plain_duration(f));
}

/// An inductive helper: nothing that `filter_facts` selects ends in the
/// narrative text-block suffix.
proof fn lemma_filter_facts_no_text_block(doc: XmlDocument, cs: Seq<usize>, tag: Seq<char>)
    ensures
        forall|m: int|
            0 <= m < filter_facts(doc, cs, tag).len() ==> !spec_ends_with(
                doc.nodes@[#[trigger] filter_facts(doc, cs, tag)[m] as int].tag@,
                "TextBlock"@,
            ),
    decreases cs.len(),
{
    if cs.len() > 0 {
        lemma_filter_facts_no_text_block(doc, cs.drop_last(), tag);
    }
}

/// Law: an element whose tag ends in `TextBlock` is never part of a fact
/// group, even though its tag starts with the requested concept prefix:
/// narrative text blocks are not scalar facts.
pub proof fn lemma_text_block_excluded(doc: XmlDocument, tag: Seq<char>)
    ensures
        forall|m: int|
            0 <= m < group_nodes(doc, tag).len() ==> !spec_ends_with(
                doc.nodes@[#[trigger] group_nodes(doc, tag)[m] as int].tag@,
                "TextBlock"@,
            ),
{
    lemma_filter_facts_no_text_block(doc, root_children(doc), tag);
}

impl Group {
    /// The plain instant projection of the group: one `(period, value)`
    /// record per context id whose facts are instant, consolidated and
    /// carry text, the first occurrence in document order winning.
    pub fn to_vec_date_and_value(&self) -> (r: Vec<(Period, String)>)
        ensures
            pairs_view(r@) == items_of(
                dedup_by_ctx(facts_view(self.facts@), |f: FactView| q_plain_instant(f)),
            ),
    {
        let ghost qf = |f: FactView| q_plain_instant(f);
        let ghost fv = facts_view(self.facts@);
        let n = self.facts.len();
        let mut out: Vec<(Period, String)> = Vec::new();
        let mut seen: Vec<String> = Vec::new();
        let mut i: usize = 0;
        proof {
            assert(fv.take(0) =~= Seq::<FactView>::empty());
            assert(pairs_view(out@) =~= items_of(dedup_by_ctx(fv.take(0), qf)));
            assert(seen@.map_values(|x: String| x@) =~= dedup_by_ctx(fv.take(0), qf).map_values(
                |f: FactView| f.context.id,
            ));
        }
        while i < n
            invariant
                n == self.facts@.len(),
                fv == facts_view(self.facts@),
                i <= n,
                pairs_view(out@) == items_of(dedup_by_ctx(fv.take(i as int), qf)),
                seen@.map_values(|x: String| x@) == dedup_by_ctx(fv.take(i as int), qf).map_values(
                    |f: FactView| f.context.id,
                ),
                qf == (|f: FactView| q_plain_instant(f)),
            decreases n - i,
        {
            let f = &self.facts[i];
            let ghost d = dedup_by_ctx(fv.take(i as int), qf);
            proof {
                assert(fv.take(i + 1).drop_last() =~= fv.take(i as int));
                assert(fv.take(i + 1).last() == fv[i as int]);
                assert(fv[i as int] == self.facts@[i as int]@);
            }
            match (&f.context.period, &f.context.entity.segment, &f.text) {
                (Period::Instant { .. }, None, Some(t)) => {
                    proof {
                        assert(qf(fv[i as int]));
                        lemma_seen_equiv(
                            d,
                            seen@.map_values(|x: String| x@),
                            f.context.id@,
                        );
                    }
                    if !contains_str(&seen, &f.context.id) {
                        out.push((f.context.period, t.clone()));
                        seen.push(f.context.id.clone());
                        proof {
                            assert(pairs_view(out@) =~= pairs_view(out@.drop_last()).push(
                                (out@.last().0, out@.last().1@),
                            ));
                            assert(items_of(d.push(fv[i as int])) =~= items_of(d).push(
                                (fv[i as int].context.period, fv[i as int].text->Some_0),
                            ));
                            assert(seen@.map_values(|x: String| x@) =~= seen@.drop_last()
                                .map_values(|x: String| x@).push(seen@.last()@));
                            assert(d.push(fv[i as int]).map_values(|f: FactView| f.context.id)
                                =~= d.map_values(|f: FactView| f.context.id).push(
                                fv[i as int].context.id,
                            ));
                        }
                    }
                },
                _ => {
                    proof {
                        assert(!qf(fv[i as int]));
                    }
                },
            }
            i = i + 1;
        }
        proof {
            assert(fv.take(n as int) =~= fv);
        }
        out
    }

    /// The segment-targeted instant projection: as the plain one, but
    /// keeping exactly the facts whose context carries a segment member
    /// valued `member_tag`; used when a concept is only reported broken
    /// down along a dimension.
    pub fn to_vec_date_and_value_with_segment(&self, member_tag: &str) -> (r: Vec<
        (Period, String),
    >)
        ensures
            pairs_view(r@) == items_of(
                dedup_by_ctx(
                    facts_view(self.facts@),
                    |f: FactView| q_segment_instant(f, member_tag@),
                ),
            ),
    {
        let ghost qf = |f: FactView| q_segment_instant(f, member_tag@);
        let ghost fv = facts_view(self.facts@);
        let n = self.facts.len();
        let mut out: Vec<(Period, String)> = Vec::new();
        let mut seen: Vec<String> = Vec::new();
        let mut i: usize = 0;
        proof {
            assert(fv.take(0) =~= Seq::<FactView>::empty());
            assert(pairs_view(out@) =~= items_of(dedup_by_ctx(fv.take(0), qf)));
            assert(seen@.map_values(|x: String| x@) =~= dedup_by_ctx(fv.take(0), qf).map_values(
                |f: FactView| f.context.id,
            ));
        }
        while i < n
            invariant
                n == self.facts@.len(),
                fv == facts_view(self.facts@),
                i <= n,
                pairs_view(out@) == items_of(dedup_by_ctx(fv.take(i as int), qf)),
                seen@.map_values(|x: String| x@) == dedup_by_ctx(fv.take(i as int), qf).map_values(
                    |f: FactView| f.context.id,
                ),
                qf == (|f: FactView| q_segment_instant(f, member_tag@)),
            decreases n - i,
        {
            let f = &self.facts[i];
            let ghost d = dedup_by_ctx(fv.take(i as int), qf);
            proof {
                assert(fv.take(i + 1).drop_last() =~= fv.take(i as int));
                assert(fv.take(i + 1).last() == fv[i as int]);
                assert(fv[i as int] == self.facts@[i as int]@);
            }
            match (&f.context.period, &f.context.entity.segment, &f.text) {
                (Period::Instant { .. }, Some(seg), Some(t)) => {
                    if segment_has_value(seg, member_tag) {
                        proof {
                            let k = choose|k: int|
                                0 <= k < seg@.len() && (#[trigger] seg@[k]).value == member_tag@;
                            assert(fv[i as int].context.segment == Some(seg@));
                            assert(fv[i as int].context.segment->Some_0[k].value == member_tag@);
                            assert(has_member_value(fv[i as int].context, member_tag@));
                            assert(qf(fv[i as int]));
                            lemma_seen_equiv(
                                d,
                                seen@.map_values(|x: String| x@),
                                f.context.id@,
                            );
                        }
                        if !contains_str(&seen, &f.context.id) {
                            out.push((f.context.period, t.clone()));
                            seen.push(f.context.id.clone());
                            proof {
                                assert(pairs_view(out@) =~= pairs_view(out@.drop_last()).push(
                                    (out@.last().0, out@.last().1@),
                                ));
                                assert(items_of(d.push(fv[i as int])) =~= items_of(d).push(
                                    (fv[i as int].context.period, fv[i as int].text->Some_0),
                                ));
                                assert(seen@.map_values(|x: String| x@) =~= seen@.drop_last()
                                    .map_values(|x: String| x@).push(seen@.last()@));
                                assert(d.push(fv[i as int]).map_values(
                                    |f: FactView| f.context.id,
                                ) =~= d.map_values(|f: FactView| f.context.id).push(
                                    fv[i as int].context.id,
                                ));
                            }
                        }
                    } else {
                        proof {
                            assert(!has_member_value(fv[i as int].context, member_tag@));
                            assert(!qf(fv[i as int]));
                        }
                    }
                },
                _ => {
                    proof {
                        assert(!qf(fv[i as int]));
                    }
                },
            }
            i = i + 1;
        }
        proof {
            assert(fv.take(n as int) =~= fv);
        }
        out
    }

    /// The plain duration projection: one `(period, value)` record per
    /// context id whose facts are durations, consolidated and carry text,
    /// the first occurrence in document order winning.
    pub fn to_vec_range_and_value(&self) -> (r: Vec<(Period, String)>)
        ensures
            pairs_view(r@) == items_of(
                dedup_by_ctx(facts_view(self.facts@), |f: FactView| q_plain_duration(f)),
            ),
    {
        let ghost qf = |f: FactView| q_plain_duration(f);
        let ghost fv = facts_view(self.facts@);
        let n = self.facts.len();
        let mut out: Vec<(Period, String)> = Vec::new();
        let mut seen: Vec<String> = Vec::new();
        let mut i: usize = 0;
        proof {
            assert(fv.take(0) =~= Seq::<FactView>::empty());
            assert(pairs_view(out@) =~= items_of(dedup_by_ctx(fv.take(0), qf)));
            assert(seen@.map_values(|x: String| x@) =~= dedup_by_ctx(fv.take(0), qf).map_values(
                |f: FactView| f.context.id,
            ));
        }
        while i < n
            invariant
                n == self.facts@.len(),
                fv == facts_view(self.facts@),
                i <= n,
                pairs_view(out@) == items_of(dedup_by_ctx(fv.take(i as int), qf)),
                seen@.map_values(|x: String| x@) == dedup_by_ctx(fv.take(i as int), qf).map_values(
                    |f: FactView| f.context.id,
                ),
                qf == (|f: FactView| q_plain_duration(f)),
            decreases n - i,
        {
            let f = &self.facts[i];
            let ghost d = dedup_by_ctx(fv.take(i as int), qf);
            proof {
                assert(fv.take(i + 1).drop_last() =~= fv.take(i as int));
                assert(fv.take(i + 1).last() == fv[i as int]);
                assert(fv[i as int] == self.facts@[i as int]@);
            }
            match (&f.context.period, &f.context.entity.segment, &f.text) {
                (Period::Duration { .. }, None, Some(t)) => {
                    proof {
                        assert(qf(fv[i as int]));
                        lemma_seen_equiv(
                            d,
                            seen@.map_values(|x: String| x@),
                            f.context.id@,
                        );
                    }
                    if !contains_str(&seen, &f.context.id) {
                        out.push((f.context.period, t.clone()));
                        seen.push(f.context.id.clone());
                        proof {
                            assert(pairs_view(out@) =~= pairs_view(out@.drop_last()).push(
                                (out@.last().0, out@.last().1@),
                            ));
                            assert(items_of(d.push(fv[i as int])) =~= items_of(d).push(
                                (fv[i as int].context.period, fv[i as int].text->Some_0),
                            ));
                            assert(seen@.map_values(|x: String| x@) =~= seen@.drop_last()
                                .map_values(|x: String| x@).push(seen@.last()@));
                            assert(d.push(fv[i as int]).map_values(|f: FactView| f.context.id)
                                =~= d.map_values(|f: FactView| f.context.id).push(
                                fv[i as int].context.id,
                            ));
                        }
                    }
                },
                _ => {
                    proof {
                        assert(!qf(fv[i as int]));
                    }
                },
            }
            i = i + 1;
        }
        proof {
            assert(fv.take(n as int) =~= fv);
        }
        out
    }
}

} // verus!
