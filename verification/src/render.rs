//! The text of each tab, as lines of styled spans, and the part of those lines
//! that a viewport shows.
use vstd::prelude::*;
use crate::app::{App, ViewMode};
use crate::source::has_prefix;
use crate::model::{ColumnChunkInfo, ColumnStatistics, ParquetFileData, RowGroupData, SchemaField, SchemaType};
use crate::text::{concat3, int_text, nat_text, int_to_text, nat_to_text};

verus! {

/// The colour and weight in which a span is drawn.
#[derive(Debug, Clone, Copy, PartialEq, Eq, Structural)]
pub enum Tone {
    Plain,
    Cyan,
    Green,
    Gray,
    Magenta,
    BoldYellow,
}

/// A piece of text drawn in one tone.
#[derive(Debug, Clone, PartialEq, Eq)]
pub struct StyledSpan {
    pub text: String,
    pub tone: Tone,
}

/// One line of the viewer: spans drawn one after the other.
#[derive(Debug, Clone, PartialEq, Eq)]
pub struct TextLine {
    pub spans: Vec<StyledSpan>,
}

/// A span as text and tone.
pub type SpanV = (Seq<char>, Tone);

/// A line as the sequence of its spans.
pub type LineV = Seq<SpanV>;

impl View for StyledSpan {
    type V = SpanV;

    open spec fn view(&self) -> SpanV {
        (self.text@, self.tone)
    }
}

impl View for TextLine {
    type V = LineV;

    open spec fn view(&self) -> LineV {
        self.spans@.map_values(|s: StyledSpan| s@)
    }
}

/// Lines as what they show.
pub open spec fn lines_view(lines: Seq<TextLine>) -> Seq<LineV> {
    lines.map_values(|l: TextLine| l@)
}

/// The empty line.
pub open spec fn blank_v() -> LineV {
    seq![(Seq::<char>::empty(), Tone::Plain)]
}

/// A line of two spans.
pub open spec fn pair_v(a: Seq<char>, ta: Tone, b: Seq<char>, tb: Tone) -> LineV {
    seq![(a, ta), (b, tb)]
}

/// A cyan label followed by a plain value.
pub open spec fn labeled_v(label: Seq<char>, value: Seq<char>) -> LineV {
    pair_v(label, Tone::Cyan, value, Tone::Plain)
}

/// A line of one bold yellow heading.
pub open spec fn heading_v(title: Seq<char>) -> LineV {
    seq![(title, Tone::BoldYellow)]
}

/// The `Created By` line, present when the writer is known.
pub open spec fn created_by_v(created_by: Option<String>) -> Seq<LineV> {
    match created_by {
        Some(c) => seq![labeled_v("Created By: "@, c@)],
        None => Seq::empty(),
    }
}

// ------------------------------------------------------------------------
// Building lines

fn span(text: String, tone: Tone) -> (s: StyledSpan)
    ensures
        s@ == (text@, tone),
{
    StyledSpan { text, tone }
}

fn line_of(a: StyledSpan) -> (l: TextLine)
    ensures
        l@ == seq![a@],
{
    let mut spans: Vec<StyledSpan> = Vec::new();
    spans.push(a);
    let l = TextLine { spans };
    assert(l@ =~= seq![a@]);
    l
}

fn pair_line(a: String, ta: Tone, b: String, tb: Tone) -> (l: TextLine)
    ensures
        l@ == pair_v(a@, ta, b@, tb),
{
    let mut spans: Vec<StyledSpan> = Vec::new();
    spans.push(span(a, ta));
    spans.push(span(b, tb));
    let l = TextLine { spans };
    assert(l@ =~= pair_v(a@, ta, b@, tb));
    l
}

fn blank_line() -> (l: TextLine)
    ensures
        l@ == blank_v(),
{
    line_of(span(String::new(), Tone::Plain))
}

fn heading_line(title: &str) -> (l: TextLine)
    ensures
        l@ == heading_v(title@),
{
    line_of(span(String::from_str(title), Tone::BoldYellow))
}

fn labeled_line(label: &str, value: String) -> (l: TextLine)
    ensures
        l@ == labeled_v(label@, value@),
{
    pair_line(String::from_str(label), Tone::Cyan, value, Tone::Plain)
}

fn push_line(lines: &mut Vec<TextLine>, l: TextLine)
    ensures
        lines_view(final(lines)@) == lines_view(old(lines)@).push(l@),
{
    let ghost before = lines@;
    lines.push(l);
    assert(lines_view(lines@) =~= lines_view(before).push(l@));
}

fn push_created_by(lines: &mut Vec<TextLine>, created_by: &Option<String>)
    ensures
        lines_view(final(lines)@) == lines_view(old(lines)@) + created_by_v(*created_by),
{
    match created_by {
        Some(c) => {
            push_line(lines, labeled_line("Created By: ", c.clone()));
            assert(lines_view(old(lines)@).push(labeled_v("Created By: "@, c@))
                =~= lines_view(old(lines)@) + created_by_v(*created_by));
        },
        None => {
            assert(lines_view(old(lines)@) =~= lines_view(old(lines)@) + created_by_v(*created_by));
        },
    }
}

// ------------------------------------------------------------------------
// Structure tab

/// The lines of one row group on the Structure tab.
pub open spec fn row_group_summary_v(rg: RowGroupData) -> Seq<LineV> {
    seq![
        blank_v(),
        pair_v("  Row Group "@, Tone::Green, nat_text(rg.index as nat), Tone::Plain),
        pair_v("    Rows: "@, Tone::Plain, int_text(rg.num_rows as int), Tone::Plain),
        pair_v("    Total Bytes: "@, Tone::Plain, int_text(rg.total_byte_size as int), Tone::Plain),
        pair_v("    Columns: "@, Tone::Plain, nat_text(rg.columns.len() as nat), Tone::Plain),
    ]
}

pub open spec fn row_group_summaries_v(rgs: Seq<RowGroupData>) -> Seq<Seq<LineV>> {
    rgs.map_values(|rg: RowGroupData| row_group_summary_v(rg))
}

/// The Structure tab: version, rows and row groups of the file, the writer
/// when known, and a summary of each row group.
pub open spec fn structure_view_v(info: ParquetFileData) -> Seq<LineV> {
    let m = info.metadata;
    seq![
        labeled_v("File Version: "@, int_text(m.version as int)),
        labeled_v("Total Rows: "@, nat_text(m.num_rows as nat)),
        labeled_v("Row Groups: "@, nat_text(m.num_row_groups as nat)),
    ] + created_by_v(m.created_by) + seq![blank_v(), heading_v("Row Groups:"@)]
        + row_group_summaries_v(info.row_groups_data@).flatten()
}

fn push_row_group_summary(lines: &mut Vec<TextLine>, rg: &RowGroupData)
    ensures
        lines_view(final(lines)@) == lines_view(old(lines)@) + row_group_summary_v(*rg),
{
    push_line(lines, blank_line());
    push_line(lines, pair_line(String::from_str("  Row Group "), Tone::Green, nat_to_text(rg.index as u64), Tone::Plain));
    push_line(lines, pair_line(String::from_str("    Rows: "), Tone::Plain, int_to_text(rg.num_rows), Tone::Plain));
    push_line(lines, pair_line(String::from_str("    Total Bytes: "), Tone::Plain, int_to_text(rg.total_byte_size), Tone::Plain));
    push_line(lines, pair_line(String::from_str("    Columns: "), Tone::Plain, nat_to_text(rg.columns.len() as u64), Tone::Plain));
    assert(lines_view(final(lines)@) =~= lines_view(old(lines)@) + row_group_summary_v(*rg));
}

// ------------------------------------------------------------------------
// Metadata tab

/// A metadata value as shown: whole when cutting is off or it is no longer
/// than `max` characters, else its first `max` characters.
pub open spec fn shown_value_v(value: Seq<char>, max: usize, no_truncate: bool) -> Seq<char> {
    if no_truncate || value.len() <= max {
        value
    } else {
        value.take(max as int)
    }
}

/// The line of one key-value pair of the footer.
pub open spec fn key_value_v(kv: (String, String), max: usize, no_truncate: bool) -> LineV {
    labeled_v("  "@ + kv.0@ + ": "@, shown_value_v(kv.1@, max, no_truncate))
}

pub open spec fn key_values_v(kvs: Seq<(String, String)>, max: usize, no_truncate: bool) -> Seq<LineV> {
    kvs.map_values(|kv: (String, String)| key_value_v(kv, max, no_truncate))
}

/// The Metadata tab: version, rows, row groups, the writer when known, and the
/// key-value pairs when there are any, their values cut to `max` characters
/// unless cutting is off.
pub open spec fn metadata_view_v(info: ParquetFileData, max: usize, no_truncate: bool) -> Seq<LineV> {
    let m = info.metadata;
    seq![
        heading_v("File Metadata:"@),
        blank_v(),
        labeled_v("Version: "@, int_text(m.version as int)),
        labeled_v("Total Rows: "@, nat_text(m.num_rows as nat)),
        labeled_v("Row Groups: "@, nat_text(m.num_row_groups as nat)),
    ] + created_by_v(m.created_by) + if m.key_value_metadata@.len() == 0 {
        Seq::empty()
    } else {
        seq![blank_v(), heading_v("Key-Value Metadata:"@)] + key_values_v(m.key_value_metadata@, max, no_truncate)
    }
}

// ------------------------------------------------------------------------
// Stats tab

/// A plain line of a label and an optional text, present when the text is.
pub open spec fn optional_text_v(label: Seq<char>, value: Option<String>) -> Seq<LineV> {
    match value {
        Some(v) => seq![pair_v(label, Tone::Plain, v@, Tone::Plain)],
        None => Seq::empty(),
    }
}

/// A plain line of a label and an optional count, present when the count is.
pub open spec fn optional_count_v(label: Seq<char>, value: Option<u64>) -> Seq<LineV> {
    match value {
        Some(v) => seq![pair_v(label, Tone::Plain, nat_text(v as nat), Tone::Plain)],
        None => Seq::empty(),
    }
}

/// The lines of the statistics of a column chunk.
pub open spec fn statistics_v(stats: Option<ColumnStatistics>) -> Seq<LineV> {
    match stats {
        Some(s) => optional_text_v("    Min: "@, s.min) + optional_text_v("    Max: "@, s.max)
            + optional_count_v("    Null Count: "@, s.null_count)
            + optional_count_v("    Distinct Count: "@, s.distinct_count),
        None => Seq::empty(),
    }
}

/// The lines of one column chunk on the Stats tab.
pub open spec fn column_stats_v(c: ColumnChunkInfo) -> Seq<LineV> {
    seq![
        labeled_v("  Column: "@, c.name@),
        pair_v("    Type: "@, Tone::Plain, c.physical_type@, Tone::Plain),
        pair_v("    Compression: "@, Tone::Plain, c.compression@, Tone::Plain),
        pair_v("    Encodings: "@, Tone::Plain, c.encodings@, Tone::Plain),
        pair_v("    Values: "@, Tone::Plain, int_text(c.num_values as int), Tone::Plain),
        pair_v("    Compressed Size: "@, Tone::Plain, int_text(c.total_compressed_size as int) + " bytes"@, Tone::Plain),
        pair_v("    Uncompressed Size: "@, Tone::Plain, int_text(c.total_uncompressed_size as int) + " bytes"@, Tone::Plain),
    ] + statistics_v(c.statistics) + seq![blank_v()]
}

pub open spec fn columns_stats_v(cs: Seq<ColumnChunkInfo>) -> Seq<Seq<LineV>> {
    cs.map_values(|c: ColumnChunkInfo| column_stats_v(c))
}

/// The lines of one row group on the Stats tab.
pub open spec fn row_group_stats_v(rg: RowGroupData) -> Seq<LineV> {
    seq![pair_v("Row Group "@, Tone::Green, nat_text(rg.index as nat), Tone::Plain), blank_v()]
        + columns_stats_v(rg.columns@).flatten()
}

pub open spec fn row_groups_stats_v(rgs: Seq<RowGroupData>) -> Seq<Seq<LineV>> {
    rgs.map_values(|rg: RowGroupData| row_group_stats_v(rg))
}

/// The Stats tab: every column chunk of every row group with its statistics.
pub open spec fn stats_view_v(info: ParquetFileData) -> Seq<LineV> {
    seq![heading_v("Column Statistics:"@), blank_v()] + row_groups_stats_v(info.row_groups_data@).flatten()
}

fn text_with_suffix(n: i64, suffix: &str) -> (s: String)
    ensures
        s@ == int_text(n as int) + suffix@,
{
    let mut s = int_to_text(n);
    s.append(suffix);
    s
}

fn push_optional_text(lines: &mut Vec<TextLine>, label: &str, value: &Option<String>)
    ensures
        lines_view(final(lines)@) == lines_view(old(lines)@) + optional_text_v(label@, *value),
{
    match value {
        Some(v) => {
            push_line(lines, pair_line(String::from_str(label), Tone::Plain, v.clone(), Tone::Plain));
        },
        None => {},
    }
    assert(lines_view(final(lines)@) =~= lines_view(old(lines)@) + optional_text_v(label@, *value));
}

fn push_optional_count(lines: &mut Vec<TextLine>, label: &str, value: Option<u64>)
    ensures
        lines_view(final(lines)@) == lines_view(old(lines)@) + optional_count_v(label@, value),
{
    match value {
        Some(v) => {
            push_line(lines, pair_line(String::from_str(label), Tone::Plain, nat_to_text(v), Tone::Plain));
        },
        None => {},
    }
    assert(lines_view(final(lines)@) =~= lines_view(old(lines)@) + optional_count_v(label@, value));
}

fn push_column_stats(lines: &mut Vec<TextLine>, c: &ColumnChunkInfo)
    ensures
        lines_view(final(lines)@) == lines_view(old(lines)@) + column_stats_v(*c),
{
    push_line(lines, labeled_line("  Column: ", c.name.clone()));
    push_line(lines, pair_line(String::from_str("    Type: "), Tone::Plain, c.physical_type.clone(), Tone::Plain));
    push_line(lines, pair_line(String::from_str("    Compression: "), Tone::Plain, c.compression.clone(), Tone::Plain));
    push_line(lines, pair_line(String::from_str("    Encodings: "), Tone::Plain, c.encodings.clone(), Tone::Plain));
    push_line(lines, pair_line(String::from_str("    Values: "), Tone::Plain, int_to_text(c.num_values), Tone::Plain));
    push_line(lines, pair_line(String::from_str("    Compressed Size: "), Tone::Plain,
        text_with_suffix(c.total_compressed_size, " bytes"), Tone::Plain));
    push_line(lines, pair_line(String::from_str("    Uncompressed Size: "), Tone::Plain,
        text_with_suffix(c.total_uncompressed_size, " bytes"), Tone::Plain));
    let ghost mid = lines_view(lines@);
    match &c.statistics {
        Some(s) => {
            push_optional_text(lines, "    Min: ", &s.min);
            push_optional_text(lines, "    Max: ", &s.max);
            push_optional_count(lines, "    Null Count: ", s.null_count);
            push_optional_count(lines, "    Distinct Count: ", s.distinct_count);
        },
        None => {},
    }
    assert(lines_view(lines@) =~= mid + statistics_v(c.statistics));
    push_line(lines, blank_line());
    assert(lines_view(final(lines)@) =~= lines_view(old(lines)@) + column_stats_v(*c));
}

fn push_row_group_stats(lines: &mut Vec<TextLine>, rg: &RowGroupData)
    ensures
        lines_view(final(lines)@) == lines_view(old(lines)@) + row_group_stats_v(*rg),
{
    push_line(lines, pair_line(String::from_str("Row Group "), Tone::Green, nat_to_text(rg.index as u64), Tone::Plain));
    push_line(lines, blank_line());
    let ghost start = lines_view(lines@);
    let mut i: usize = 0;
    while i < rg.columns.len()
        invariant
            i <= rg.columns.len(),
            lines_view(lines@) == start + columns_stats_v(rg.columns@.take(i as int)).flatten(),
        decreases rg.columns.len() - i,
    {
        push_column_stats(lines, &rg.columns[i]);
        proof {
            assert(columns_stats_v(rg.columns@.take(i + 1)) =~= columns_stats_v(rg.columns@.take(i as int)).push(
                column_stats_v(rg.columns@[i as int])));
            columns_stats_v(rg.columns@.take(i as int)).lemma_flatten_push(column_stats_v(rg.columns@[i as int]));
        }
        i = i + 1;
    }
    assert(rg.columns@.take(rg.columns.len() as int) =~= rg.columns@);
    assert(lines_view(final(lines)@) =~= lines_view(old(lines)@) + row_group_stats_v(*rg));
}

// ------------------------------------------------------------------------
// Schema tab

/// `2 * depth` spaces.
pub open spec fn indent_v(depth: nat) -> Seq<char> {
    Seq::new(2 * depth, |i: int| ' ')
}

/// The repetition of a node when it has a non-empty one.
pub open spec fn shown_repetition(node: SchemaField) -> Option<Seq<char>> {
    match node.repetition {
        Some(r) => if r@.len() > 0 { Some(r@) } else { None },
        None => None,
    }
}

/// The spans of a node after its indentation: a group shows its name in bold
/// yellow; a leaf its name in cyan and its type in green; both then their
/// repetition in gray.
pub open spec fn node_body_v(node: SchemaField) -> LineV {
    match node._type {
        SchemaType::Group(_) => seq![(node.name@ + " "@, Tone::BoldYellow)] + match shown_repetition(node) {
            Some(r) => seq![("("@ + r + ")"@, Tone::Gray)],
            None => Seq::empty(),
        },
        SchemaType::Primitive(desc) => seq![(node.name@ + ": "@, Tone::Cyan), (desc@, Tone::Green)]
            + match shown_repetition(node) {
            Some(r) => seq![(" ("@ + r + ")"@, Tone::Gray)],
            None => Seq::empty(),
        },
    }
}

/// The logical type of a node in magenta, or else its converted type.
pub open spec fn node_annotation_v(node: SchemaField) -> LineV {
    match node.logical_type {
        Some(lt) => seq![(" ["@ + lt@ + "]"@, Tone::Magenta)],
        None => match node.converted_type {
            Some(ct) => seq![(" ["@ + ct@ + "]"@, Tone::Magenta)],
            None => Seq::empty(),
        },
    }
}

/// The line of one schema node at a depth.
pub open spec fn node_line_v(node: SchemaField, depth: nat) -> LineV {
    seq![(indent_v(depth), Tone::Plain)] + node_body_v(node) + node_annotation_v(node)
}

/// The depth of the children of a node at `depth`.
pub open spec fn child_depth(depth: nat) -> nat {
    if depth < usize::MAX { depth + 1 } else { depth }
}

/// A node's line followed by the lines of its children, one level deeper.
pub open spec fn schema_lines_v(node: SchemaField, depth: nat) -> Seq<LineV>
    decreases node, 1nat,
{
    seq![node_line_v(node, depth)] + match node._type {
        SchemaType::Group(children) => forest_lines_v(children@, child_depth(depth)),
        SchemaType::Primitive(_) => Seq::empty(),
    }
}

/// The lines of a sequence of sibling nodes.
pub open spec fn forest_lines_v(nodes: Seq<SchemaField>, depth: nat) -> Seq<LineV>
    decreases nodes, 0nat,
{
    if nodes.len() == 0 {
        Seq::empty()
    } else {
        forest_lines_v(nodes.drop_last(), depth) + schema_lines_v(nodes.last(), depth)
    }
}

/// The Schema tab: the schema tree, one node per line.
pub open spec fn schema_view_v(info: ParquetFileData) -> Seq<LineV> {
    schema_lines_v(info.metadata.schema_tree, 0)
}

fn indent(depth: usize) -> (s: String)
    ensures
        s@ == indent_v(depth as nat),
{
    let mut s = String::new();
    let mut i: usize = 0;
    while i < depth
        invariant
            i <= depth,
            s@ == indent_v(i as nat),
        decreases depth - i,
    {
        s.append("  ");
        proof {
            reveal_strlit("  ");
        }
        assert(s@ =~= indent_v((i + 1) as nat));
        i = i + 1;
    }
    s
}

fn node_line(node: &SchemaField, depth: usize) -> (l: TextLine)
    ensures
        l@ == node_line_v(*node, depth as nat),
{
    let mut spans: Vec<StyledSpan> = Vec::new();
    spans.push(span(indent(depth), Tone::Plain));
    let shown: Option<&String> = match &node.repetition {
        Some(r) => if !r.as_str().is_empty() { Some(r) } else { None },
        None => None,
    };
    proof {
        assert(shown_repetition(*node) == match shown { Some(r) => Some(r@), None => None::<Seq<char>> });
    }
    let ghost s0 = spans@.map_values(|s: StyledSpan| s@);
    match &node._type {
        SchemaType::Group(_) => {
            spans.push(span(concat3(node.name.as_str(), " ", ""), Tone::BoldYellow));
            match shown {
                Some(r) => {
                    spans.push(span(concat3("(", r.as_str(), ")"), Tone::Gray));
                },
                None => {},
            }
        },
        SchemaType::Primitive(desc) => {
            spans.push(span(concat3(node.name.as_str(), ": ", ""), Tone::Cyan));
            spans.push(span(desc.clone(), Tone::Green));
            match shown {
                Some(r) => {
                    spans.push(span(concat3(" (", r.as_str(), ")"), Tone::Gray));
                },
                None => {},
            }
        },
    }
    proof {
        reveal_strlit("");
    }
    let ghost s1 = spans@.map_values(|s: StyledSpan| s@);
    assert(s1 =~= s0 + node_body_v(*node));
    match &node.logical_type {
        Some(lt) => {
            spans.push(span(concat3(" [", lt.as_str(), "]"), Tone::Magenta));
        },
        None => match &node.converted_type {
            Some(ct) => {
                spans.push(span(concat3(" [", ct.as_str(), "]"), Tone::Magenta));
            },
            None => {},
        },
    }
    let l = TextLine { spans };
    assert(l@ =~= node_line_v(*node, depth as nat));
    l
}

/// Appends the lines of a schema node and of its descendants.
pub fn render_schema_node(node: &SchemaField, depth: usize, lines: &mut Vec<TextLine>)
    ensures
        lines_view(final(lines)@) == lines_view(old(lines)@) + schema_lines_v(*node, depth as nat),
    decreases node,
{
    push_line(lines, node_line(node, depth));
    let ghost after_head = lines_view(lines@);
    match &node._type {
        SchemaType::Group(children) => {
            let child = if depth < usize::MAX { depth + 1 } else { depth };
            let mut i: usize = 0;
            while i < children.len()
                invariant
                    i <= children.len(),
                    child as nat == child_depth(depth as nat),
                    node._type is Group,
                    node._type->Group_0 == *children,
                    lines_view(lines@) == after_head + forest_lines_v(children@.take(i as int), child as nat),
                decreases children.len() - i,
            {
                proof {
                    assert(decreases_to!(node => node._type));
                    assert(node._type->Group_0 == *children);
                    assert(decreases_to!(node._type => node._type->Group_0));
                    assert(decreases_to!(*children => children@));
                    assert(decreases_to!(children@ => children@[i as int]));
                }
                render_schema_node(&children[i], child, lines);
                proof {
                    let t = children@.take(i + 1);
                    assert(t.drop_last() =~= children@.take(i as int));
                    assert(t.last() == children@[i as int]);
                }
                i = i + 1;
            }
            assert(children@.take(children.len() as int) =~= children@);
        },
        SchemaType::Primitive(_) => {},
    }
    assert(lines_view(final(lines)@) =~= lines_view(old(lines)@) + schema_lines_v(*node, depth as nat));
}

// ------------------------------------------------------------------------
// The tabs of the viewer

impl App {
    /// The lines of the Structure tab.
    pub fn structure_view_lines(&self) -> (lines: Vec<TextLine>)
        ensures
            lines_view(lines@) == structure_view_v(self.info),
    {
        let info = &self.info;
        let m = &info.metadata;
        let mut lines: Vec<TextLine> = Vec::new();
        push_line(&mut lines, labeled_line("File Version: ", int_to_text(m.version as i64)));
        push_line(&mut lines, labeled_line("Total Rows: ", nat_to_text(m.num_rows)));
        push_line(&mut lines, labeled_line("Row Groups: ", nat_to_text(m.num_row_groups as u64)));
        push_created_by(&mut lines, &m.created_by);
        push_line(&mut lines, blank_line());
        push_line(&mut lines, heading_line("Row Groups:"));
        let ghost start = lines_view(lines@);
        let rgs = &info.row_groups_data;
        let mut i: usize = 0;
        while i < rgs.len()
            invariant
                i <= rgs.len(),
                lines_view(lines@) == start + row_group_summaries_v(rgs@.take(i as int)).flatten(),
            decreases rgs.len() - i,
        {
            push_row_group_summary(&mut lines, &rgs[i]);
            proof {
                assert(row_group_summaries_v(rgs@.take(i + 1)) =~= row_group_summaries_v(rgs@.take(i as int)).push(
                    row_group_summary_v(rgs@[i as int])));
                row_group_summaries_v(rgs@.take(i as int)).lemma_flatten_push(row_group_summary_v(rgs@[i as int]));
            }
            i = i + 1;
        }
        assert(rgs@.take(rgs.len() as int) =~= rgs@);
        assert(lines_view(lines@) =~= structure_view_v(self.info));
        lines
    }

    /// The lines of the Schema tab.
    pub fn schema_view_lines(&self) -> (lines: Vec<TextLine>)
        ensures
            lines_view(lines@) == schema_view_v(self.info),
    {
        let mut lines: Vec<TextLine> = Vec::new();
        render_schema_node(&self.info.metadata.schema_tree, 0, &mut lines);
        assert(lines_view(lines@) =~= schema_view_v(self.info));
        lines
    }

    /// The lines of the Metadata tab.
    pub fn metadata_view_lines(&self) -> (lines: Vec<TextLine>)
        ensures
            lines_view(lines@) == metadata_view_v(self.info, self.max_value_length, self.no_truncate),
    {
        let m = &self.info.metadata;
        let max = self.max_value_length;
        let no_truncate = self.no_truncate;
        let mut lines: Vec<TextLine> = Vec::new();
        push_line(&mut lines, heading_line("File Metadata:"));
        push_line(&mut lines, blank_line());
        push_line(&mut lines, labeled_line("Version: ", int_to_text(m.version as i64)));
        push_line(&mut lines, labeled_line("Total Rows: ", nat_to_text(m.num_rows)));
        push_line(&mut lines, labeled_line("Row Groups: ", nat_to_text(m.num_row_groups as u64)));
        push_created_by(&mut lines, &m.created_by);
        let ghost start = lines_view(lines@);
        let kvs = &m.key_value_metadata;
        if kvs.len() > 0 {
            push_line(&mut lines, blank_line());
            push_line(&mut lines, heading_line("Key-Value Metadata:"));
            let ghost start2 = lines_view(lines@);
            let mut i: usize = 0;
            while i < kvs.len()
                invariant
                    i <= kvs.len(),
                    lines_view(lines@) == start2 + key_values_v(kvs@.take(i as int), max, no_truncate),
                decreases kvs.len() - i,
            {
                let label = concat3("  ", kvs[i].0.as_str(), ": ");
                push_line(&mut lines, labeled_line_owned(label, shown_value(&kvs[i].1, max, no_truncate)));
                assert(key_values_v(kvs@.take(i + 1), max, no_truncate) =~= key_values_v(kvs@.take(i as int), max, no_truncate).push(
                    key_value_v(kvs@[i as int], max, no_truncate)));
                i = i + 1;
            }
            assert(kvs@.take(kvs.len() as int) =~= kvs@);
        }
        assert(lines_view(lines@) =~= metadata_view_v(self.info, self.max_value_length, self.no_truncate));
        lines
    }

    /// The lines of the tab that is shown.
    pub fn current_view_lines(&self) -> (lines: Vec<TextLine>)
        ensures
            lines_view(lines@) == match self.current_view {
                ViewMode::Structure => structure_view_v(self.info),
                ViewMode::Schema => schema_view_v(self.info),
                ViewMode::Metadata => metadata_view_v(self.info, self.max_value_length, self.no_truncate),
                ViewMode::Stats => stats_view_v(self.info),
            },
    {
        match self.current_view {
            ViewMode::Structure => self.structure_view_lines(),
            ViewMode::Schema => self.schema_view_lines(),
            ViewMode::Metadata => self.metadata_view_lines(),
            ViewMode::Stats => self.stats_view_lines(),
        }
    }

    /// The lines of the Stats tab.
    pub fn stats_view_lines(&self) -> (lines: Vec<TextLine>)
        ensures
            lines_view(lines@) == stats_view_v(self.info),
    {
        let mut lines: Vec<TextLine> = Vec::new();
        push_line(&mut lines, heading_line("Column Statistics:"));
        push_line(&mut lines, blank_line());
        let ghost start = lines_view(lines@);
        let rgs = &self.info.row_groups_data;
        let mut i: usize = 0;
        while i < rgs.len()
            invariant
                i <= rgs.len(),
                lines_view(lines@) == start + row_groups_stats_v(rgs@.take(i as int)).flatten(),
            decreases rgs.len() - i,
        {
            push_row_group_stats(&mut lines, &rgs[i]);
            proof {
                assert(row_groups_stats_v(rgs@.take(i + 1)) =~= row_groups_stats_v(rgs@.take(i as int)).push(
                    row_group_stats_v(rgs@[i as int])));
                row_groups_stats_v(rgs@.take(i as int)).lemma_flatten_push(row_group_stats_v(rgs@[i as int]));
            }
            i = i + 1;
        }
        assert(rgs@.take(rgs.len() as int) =~= rgs@);
        assert(lines_view(lines@) =~= stats_view_v(self.info));
        lines
    }
}

/// A metadata value as shown, cut to `max` characters unless cutting is off.
pub fn shown_value(value: &String, max: usize, no_truncate: bool) -> (s: String)
    ensures
        s@ == shown_value_v(value@, max, no_truncate),
        !no_truncate ==> s@.len() <= max,
        !no_truncate && value@.len() > max ==> s@.len() == max,
        no_truncate || value@.len() <= max ==> s@ == value@,
        has_prefix(value@, s@),
{
    let v = value.as_str();
    let n = v.unicode_len();
    if no_truncate || n <= max {
        assert(value@.subrange(0, value@.len() as int) =~= value@);
        value.clone()
    } else {
        let cut = v.substring_char(0, max);
        assert(cut@ =~= value@.take(max as int));
        assert(value@.subrange(0, max as int) =~= cut@);
        cut.to_owned()
    }
}

fn labeled_line_owned(label: String, value: String) -> (l: TextLine)
    ensures
        l@ == labeled_v(label@, value@),
{
    pair_line(label, Tone::Cyan, value, Tone::Plain)
}

// ------------------------------------------------------------------------
// Scrolling

/// The furthest a text of `total` lines scrolls in a viewport of `height` lines.
pub open spec fn max_scroll_for(total: int, height: int) -> int {
    if total >= height { total - height } else { 0 }
}

/// The offset that drawing keeps: the requested one, clamped to the furthest.
pub open spec fn fitted_offset(offset: int, total: int, height: int) -> int {
    if offset <= max_scroll_for(total, height) { offset } else { max_scroll_for(total, height) }
}

/// Clamps the scroll offset to the text, records how far it can scroll, and
/// returns the lines that the viewport shows and whether a scrollbar is needed.
pub fn fit_viewport<T>(
    scroll_offset: &mut usize,
    max_scroll: &mut usize,
    lines: Vec<T>,
    viewport_height: usize,
) -> (r: (Vec<T>, bool))
    ensures
        *final(max_scroll) == max_scroll_for(lines.len() as int, viewport_height as int),
        *final(scroll_offset) == fitted_offset(*old(scroll_offset) as int, lines.len() as int, viewport_height as int),
        r.0@ == lines@.subrange(*final(scroll_offset) as int, *final(scroll_offset) + r.0.len()),
        r.0.len() == if lines.len() <= viewport_height { lines.len() } else { viewport_height },
        r.1 == (*final(max_scroll) > 0),
        lines.len() > viewport_height ==> *final(max_scroll) + viewport_height == lines.len(),
        lines.len() <= viewport_height ==> *final(max_scroll) == 0 && *final(scroll_offset) == 0,
        *final(scroll_offset) <= *final(max_scroll),
        *old(scroll_offset) >= *final(max_scroll) ==> *final(scroll_offset) + r.0.len() == lines.len(),
{
    let total = lines.len();
    let max_value = total.saturating_sub(viewport_height);
    *max_scroll = max_value;
    if *scroll_offset > max_value {
        *scroll_offset = max_value;
    }
    let mut visible = lines;
    let offset = *scroll_offset;
    let ghost all = visible@;
    let mut rest = visible.split_off(offset);
    rest.truncate(viewport_height);
    assert(rest@ =~= all.subrange(offset as int, offset + rest.len()));
    (rest, max_value > 0)
}

/// A text longer than its viewport scrolls exactly far enough for its last
/// line to reach the bottom of the viewport, and no further; a text that fits
/// does not scroll. Any offset at or past the furthest shows the last line.
pub proof fn lemma_viewport_reaches_last_line(offset: int, total: int, height: int)
    requires
        0 <= offset,
        0 <= total,
        0 <= height,
    ensures
        total > height ==> max_scroll_for(total, height) + height == total,
        total <= height ==> max_scroll_for(total, height) == 0 && fitted_offset(offset, total, height) == 0,
        offset >= max_scroll_for(total, height) ==> fitted_offset(offset, total, height) == max_scroll_for(total, height),
        offset < max_scroll_for(total, height) ==> fitted_offset(offset, total, height) == offset,
        offset >= max_scroll_for(total, height) ==>
            fitted_offset(offset, total, height) + (if total <= height { total } else { height }) == total,
{
}

/// Scrolling to the bottom and drawing shows the last page; a viewport that
/// has been fitted stays put when fitted again.
pub proof fn lemma_fit_viewport(offset: int, total: int, height: int)
    requires
        0 <= offset,
        0 <= total,
        0 <= height,
        total <= usize::MAX,
    ensures
        fitted_offset(usize::MAX as int, total, height) == max_scroll_for(total, height),
        fitted_offset(fitted_offset(offset, total, height), total, height) == fitted_offset(offset, total, height),
        0 <= fitted_offset(offset, total, height) <= max_scroll_for(total, height),
{
}

// ------------------------------------------------------------------------
// Laws of the tabs' text

/// On the Stats tab a column chunk shows, in this order: its name, physical
/// type, compression, encodings and value count; its compressed size and then
/// its uncompressed size, each in bytes; the bounds and counts of its
/// statistics that are present (min, max, null count, distinct count, each
/// with its own value); and an empty line.
pub proof fn lemma_column_stats_lines(c: ColumnChunkInfo)
    ensures
        column_stats_v(c)[0] == seq![("  Column: "@, Tone::Cyan), (c.name@, Tone::Plain)],
        column_stats_v(c)[1] == seq![("    Type: "@, Tone::Plain), (c.physical_type@, Tone::Plain)],
        column_stats_v(c)[2] == seq![("    Compression: "@, Tone::Plain), (c.compression@, Tone::Plain)],
        column_stats_v(c)[3] == seq![("    Encodings: "@, Tone::Plain), (c.encodings@, Tone::Plain)],
        column_stats_v(c)[4] == seq![("    Values: "@, Tone::Plain), (int_text(c.num_values as int), Tone::Plain)],
        column_stats_v(c)[5] == seq![("    Compressed Size: "@, Tone::Plain),
            (int_text(c.total_compressed_size as int) + " bytes"@, Tone::Plain)],
        column_stats_v(c)[6] == seq![("    Uncompressed Size: "@, Tone::Plain),
            (int_text(c.total_uncompressed_size as int) + " bytes"@, Tone::Plain)],
        c.statistics is None ==> column_stats_v(c).len() == 8,
        column_stats_v(c).last() == seq![(Seq::<char>::empty(), Tone::Plain)],
        ({
            let st = c.statistics->0;
            c.statistics is Some && st.min is Some && st.max is Some && st.null_count is Some && st.distinct_count is Some
            ==> {
                &&& column_stats_v(c).len() == 12
                &&& column_stats_v(c)[7] == seq![("    Min: "@, Tone::Plain), (st.min->0@, Tone::Plain)]
                &&& column_stats_v(c)[8] == seq![("    Max: "@, Tone::Plain), (st.max->0@, Tone::Plain)]
                &&& column_stats_v(c)[9] == seq![("    Null Count: "@, Tone::Plain), (nat_text(st.null_count->0 as nat), Tone::Plain)]
                &&& column_stats_v(c)[10] == seq![("    Distinct Count: "@, Tone::Plain),
                    (nat_text(st.distinct_count->0 as nat), Tone::Plain)]
            }
        }),
        ({
            let st = c.statistics->0;
            c.statistics is Some && st.min is None && st.max is Some ==>
                column_stats_v(c)[7] == seq![("    Max: "@, Tone::Plain), (st.max->0@, Tone::Plain)]
        }),
{
}

/// On the Structure tab a row group shows an empty line, then its position,
/// its row count, its total byte size and its number of columns.
pub proof fn lemma_row_group_summary_lines(rg: RowGroupData)
    ensures
        row_group_summary_v(rg) == seq![
            seq![(Seq::<char>::empty(), Tone::Plain)],
            seq![("  Row Group "@, Tone::Green), (nat_text(rg.index as nat), Tone::Plain)],
            seq![("    Rows: "@, Tone::Plain), (int_text(rg.num_rows as int), Tone::Plain)],
            seq![("    Total Bytes: "@, Tone::Plain), (int_text(rg.total_byte_size as int), Tone::Plain)],
            seq![("    Columns: "@, Tone::Plain), (nat_text(rg.columns.len() as nat), Tone::Plain)],
        ],
        row_group_stats_v(rg).take(2) == seq![
            seq![("Row Group "@, Tone::Green), (nat_text(rg.index as nat), Tone::Plain)],
            seq![(Seq::<char>::empty(), Tone::Plain)],
        ],
{
    assert(row_group_stats_v(rg).take(2) =~= seq![
        seq![("Row Group "@, Tone::Green), (nat_text(rg.index as nat), Tone::Plain)],
        seq![(Seq::<char>::empty(), Tone::Plain)],
    ]);
}

/// The Structure and Metadata tabs open with the file's version, row count
/// and row-group count, each after its label.
pub proof fn lemma_file_summary_lines(info: ParquetFileData, max: usize, no_truncate: bool)
    ensures
        structure_view_v(info)[0] == seq![("File Version: "@, Tone::Cyan), (int_text(info.metadata.version as int), Tone::Plain)],
        structure_view_v(info)[1] == seq![("Total Rows: "@, Tone::Cyan), (nat_text(info.metadata.num_rows as nat), Tone::Plain)],
        structure_view_v(info)[2] == seq![("Row Groups: "@, Tone::Cyan),
            (nat_text(info.metadata.num_row_groups as nat), Tone::Plain)],
        metadata_view_v(info, max, no_truncate)[2] == seq![("Version: "@, Tone::Cyan),
            (int_text(info.metadata.version as int), Tone::Plain)],
        metadata_view_v(info, max, no_truncate)[3] == seq![("Total Rows: "@, Tone::Cyan),
            (nat_text(info.metadata.num_rows as nat), Tone::Plain)],
        metadata_view_v(info, max, no_truncate)[4] == seq![("Row Groups: "@, Tone::Cyan),
            (nat_text(info.metadata.num_row_groups as nat), Tone::Plain)],
{
}

/// On the Metadata tab each key-value pair shows its key, then its value: the
/// whole value when cutting is off or the value has at most `max` characters,
/// else exactly its first `max` characters.
pub proof fn lemma_key_value_line(kv: (String, String), max: usize, no_truncate: bool)
    ensures
        key_value_v(kv, max, no_truncate)[0] == ("  "@ + kv.0@ + ": "@, Tone::Cyan),
        key_value_v(kv, max, no_truncate)[1].0.len() == if !no_truncate && kv.1@.len() > max {
            max as int
        } else {
            kv.1@.len() as int
        },
        forall|i: int| 0 <= i < key_value_v(kv, max, no_truncate)[1].0.len() ==>
            #[trigger] key_value_v(kv, max, no_truncate)[1].0[i] == kv.1@[i],
{
}

/// On the Schema tab a node's line starts with two spaces per level of depth;
/// a group then shows its name in bold yellow, a leaf its name in cyan and its
/// type in green; a logical type, when there is one, ends the line in magenta,
/// else a converted type does.
pub proof fn lemma_schema_node_line(node: SchemaField, depth: nat)
    ensures
        node_line_v(node, depth)[0].0.len() == 2 * depth,
        forall|i: int| 0 <= i < 2 * depth ==> #[trigger] node_line_v(node, depth)[0].0[i] == ' ',
        node._type is Group ==> node_line_v(node, depth)[1] == (node.name@ + " "@, Tone::BoldYellow),
        node._type is Primitive ==> node_line_v(node, depth)[1] == (node.name@ + ": "@, Tone::Cyan)
            && node_line_v(node, depth)[2] == (node._type->Primitive_0@, Tone::Green),
        node.logical_type is Some ==> node_line_v(node, depth).last()
            == (" ["@ + node.logical_type->0@ + "]"@, Tone::Magenta),
        node.logical_type is None && node.converted_type is Some ==> node_line_v(node, depth).last()
            == (" ["@ + node.converted_type->0@ + "]"@, Tone::Magenta),
        schema_lines_v(node, depth)[0] == node_line_v(node, depth),
        node._type is Primitive ==> schema_lines_v(node, depth).len() == 1,
{
}

} // verus!
