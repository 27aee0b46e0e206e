//! The parser of the status listing: from the text that the status command
//! printed to node records, line by line.
//!
//! A node line is recognised by a regular expression, which the `regex`
//! crate matches; what is done with the groups that it captures is proved
//! here.

use crate::record::{record_views, NodeRecord, RecordView};
use crate::text::{contains_text, is_blank, lines_of, split_lines, str_contains, str_is_blank, texts};
use vstd::prelude::*;

verus! {

/// The shape of a node line: an address of four dotted numbers, the host
/// name, a suggested user that may be missing, and two more fields, the
/// second of which is the status. Groups 1, 2, 3 and 5 are read.
pub const NODE_PATTERN: &'static str =
    "^(\\d+\\.\\d+\\.\\d+\\.\\d+)\\s+(\\S+)\\s+(\\S*)\\s+(\\S+)\\s+(\\S+)";

/// The error of the `regex` crate for a pattern that it refuses.
#[verifier::external_type_specification]
#[verifier::external_body]
pub struct ExRegexError(regex::Error);

/// Whether `regex::Regex::new` accepts a pattern.
pub uninterp spec fn pattern_accepted(pattern: Seq<char>) -> bool;

/// What `regex::Regex::captures` finds for an accepted pattern in a text:
/// nothing where the pattern matches nowhere, and else the capture groups
/// of the leftmost match, group 0 (the whole match) first, each with the
/// text it matched or without one where it took no part in the match.
pub uninterp spec fn capture_groups(pattern: Seq<char>, haystack: Seq<char>) -> Option<
    Seq<Option<Seq<char>>>,
>;

/// The capture groups of one match: group 0, the whole match, first. A
/// group that took no part in the match has no text.
pub type Groups = Vec<Option<String>>;

/// The groups of a match as character sequences.
pub open spec fn group_views(groups: Seq<Option<String>>) -> Seq<Option<Seq<char>>> {
    groups.map_values(
        |g: Option<String>|
            match g {
                Some(s) => Some(s@),
                None => None,
            },
    )
}

/// What a search found, as character sequences.
pub open spec fn found_view(found: Option<Groups>) -> Option<Seq<Option<Seq<char>>>> {
    match found {
        Some(groups) => Some(group_views(groups@)),
        None => None,
    }
}

/// Compiles `pattern` once with `regex::Regex::new` and searches each of
/// `lines` with `regex::Regex::captures`. Assumed: the call fails exactly
/// for a pattern that the crate refuses; otherwise it returns, line for
/// line, what the search finds there, the groups in the order of
/// `regex::Captures::iter`, each with the text of `regex::Match::as_str`.
/// Whether a pattern is refused depends on the pattern alone, and what is
/// found in a line on the pattern and that line alone.
#[verifier::external_body]
fn match_lines(pattern: &str, lines: &Vec<String>) -> (found: Result<
    Vec<Option<Groups>>,
    regex::Error,
>)
    ensures
        found is Ok <==> pattern_accepted(pattern@),
        found matches Ok(all) ==> all@.len() == lines@.len() && forall|i: int|
            0 <= i < lines@.len() ==> found_view(#[trigger] all@[i]) == capture_groups(
                pattern@,
                lines@[i]@,
            ),
{
    let re = regex::Regex::new(pattern)?;
    let texts_of = |caps: regex::Captures| {
        caps.iter().map(|group| group.map(|m| m.as_str().to_string())).collect()
    };
    Ok(lines.iter().map(|line| re.captures(line).map(texts_of)).collect())
}

/// Why no records could be had from the status command.
#[derive(Debug, PartialEq, Eq)]
pub enum StatusError {
    /// The command ended with a failure; what it wrote as diagnosis is
    /// attached.
    CommandFailed(String),
    /// The pattern of a node line was refused.
    Pattern,
}

/// The records of a listing, and whether the listing should be shown to the
/// user as it is because nothing could be read from it.
#[derive(Debug, PartialEq, Eq)]
pub struct Listing {
    pub nodes: Vec<NodeRecord>,
    pub unreadable: bool,
}

/// The text of group `i`: empty where there is no such group or where the
/// group took no part in the match.
pub open spec fn group_text(groups: Seq<Option<Seq<char>>>, i: int) -> Seq<char> {
    if 0 <= i < groups.len() && groups[i] is Some {
        groups[i]->0
    } else {
        Seq::empty()
    }
}

/// The record that the groups of a matched line give: the address from
/// group 1, the name from group 2, the suggested user from group 3 as it
/// stands, the status from group 5. There is none where the name or the
/// address is empty.
pub open spec fn record_of(groups: Seq<Option<Seq<char>>>) -> Option<RecordView> {
    let record = RecordView {
        name: group_text(groups, 2),
        ip: group_text(groups, 1),
        suggested_user: group_text(groups, 3),
        status: group_text(groups, 5),
    };
    if record.valid() {
        Some(record)
    } else {
        None
    }
}

/// Whether a line is passed over whatever its shape: a blank line, or one
/// that holds one of the two words that mark a line that is no node.
pub open spec fn skipped(line: Seq<char>) -> bool {
    is_blank(line) || contains_text(line, "tagmap"@) || contains_text(line, "subnet"@)
}

/// The record of one line, given what the search for the shape of a node
/// line found in it: none for a line that is passed over, for one in which
/// nothing was found, and for one whose name or address comes out empty.
pub open spec fn record_of_line(line: Seq<char>, found: Option<Seq<Option<Seq<char>>>>) -> Option<
    RecordView,
> {
    if skipped(line) {
        None
    } else {
        match found {
            Some(groups) => record_of(groups),
            None => None,
        }
    }
}

/// The record of one line, if it gives one.
pub open spec fn line_record(line: Seq<char>) -> Option<RecordView> {
    record_of_line(line, capture_groups(NODE_PATTERN@, line))
}

/// The records of a listing: those of its lines, in the order of the lines.
pub open spec fn records_of(text: Seq<char>) -> Seq<RecordView> {
    lines_of(text).filter_map(|line: Seq<char>| line_record(line))
}

/// The text of group `i` of a match.
fn text_of_group(groups: &Groups, i: usize) -> (text: String)
    ensures
        text@ == group_text(group_views(groups@), i as int),
{
    if i < groups.len() {
        match &groups[i] {
            Some(s) => s.clone(),
            None => String::new(),
        }
    } else {
        String::new()
    }
}

/// The record that the groups of a matched line give.
pub fn record_from_groups(groups: &Groups) -> (node: Option<NodeRecord>)
    ensures
        match node {
            Some(n) => record_of(group_views(groups@)) == Some(n@),
            None => record_of(group_views(groups@)) is None,
        },
{
    let ip = text_of_group(groups, 1);
    let name = text_of_group(groups, 2);
    let suggested_user = text_of_group(groups, 3);
    let status = text_of_group(groups, 5);
    NodeRecord::new(name, ip, suggested_user, status)
}

/// Whether a line is passed over whatever its shape.
pub fn is_skipped(line: &str) -> (skip: bool)
    ensures
        skip == skipped(line@),
{
    str_is_blank(line) || str_contains(line, "tagmap") || str_contains(line, "subnet")
}

/// The record of one line, given what the search for the shape of a node
/// line found in it.
pub fn node_of_line(line: &str, found: &Option<Groups>) -> (node: Option<NodeRecord>)
    ensures
        match node {
            Some(n) => record_of_line(line@, found_view(*found)) == Some(n@),
            None => record_of_line(line@, found_view(*found)) is None,
        },
{
    if is_skipped(line) {
        return None;
    }
    match found {
        Some(groups) => record_from_groups(groups),
        None => None,
    }
}

/// Reads one line of the listing. The result is an error exactly where the
/// pattern is refused.
pub fn parse_line(line: &str) -> (node: Result<Option<NodeRecord>, StatusError>)
    ensures
        node is Ok <==> pattern_accepted(NODE_PATTERN@),
        match node {
            Ok(Some(n)) => line_record(line@) == Some(n@),
            Ok(None) => line_record(line@) is None,
            Err(e) => e is Pattern,
        },
{
    let mut lines: Vec<String> = Vec::new();
    lines.push(line.to_owned());
    match match_lines(NODE_PATTERN, &lines) {
        Ok(all) => Ok(node_of_line(line, &all[0])),
        Err(_) => Err(StatusError::Pattern),
    }
}

/// Reads the listing that the status command printed: one record for each
/// line that has the shape of a node line, in the order of the lines. Lines
/// of any other kind are passed over without complaint. The result is an
/// error exactly where the pattern is refused, whatever the text holds.
pub fn parse_status(text: &str) -> (nodes: Result<Vec<NodeRecord>, StatusError>)
    ensures
        nodes is Ok <==> pattern_accepted(NODE_PATTERN@),
        match nodes {
            Ok(found) => record_views(found@) == records_of(text@),
            Err(e) => e is Pattern,
        },
{
    let lines = split_lines(text);
    let all = match match_lines(NODE_PATTERN, &lines) {
        Ok(all) => all,
        Err(_) => {
            return Err(StatusError::Pattern);
        },
    };
    let ghost all_lines = lines_of(text@);
    let ghost pick = |line: Seq<char>| line_record(line);
    let mut found: Vec<NodeRecord> = Vec::new();
    let mut i: usize = 0;
    proof {
        assert(all_lines.take(0) =~= Seq::<Seq<char>>::empty());
        assert(record_views(found@) =~= all_lines.take(0).filter_map(pick));
    }
    while i < lines.len()
        invariant
            i <= lines.len(),
            all@.len() == lines@.len(),
            forall|k: int|
                0 <= k < lines@.len() ==> found_view(#[trigger] all@[k]) == capture_groups(
                    NODE_PATTERN@,
                    lines@[k]@,
                ),
            texts(lines@) == all_lines,
            pick == |line: Seq<char>| line_record(line),
            record_views(found@) == all_lines.take(i as int).filter_map(pick),
        decreases lines.len() - i,
    {
        proof {
            all_lines.lemma_filter_map_take_succ(pick, i as int);
            assert(all_lines[i as int] == lines@[i as int]@);
        }
        match node_of_line(lines[i].as_str(), &all[i]) {
            Some(node) => {
                assert(record_views(found@.push(node)) =~= record_views(found@).push(node@));
                found.push(node);
            },
            None => {},
        }
        i += 1;
    }
    assert(all_lines.take(lines.len() as int) =~= all_lines);
    Ok(found)
}

/// Whether the listing should be shown to the user as it is: the command
/// printed something, and no record came of it.
pub fn is_unreadable(text: &str, count: usize) -> (unreadable: bool)
    ensures
        unreadable == (count == 0 && !is_blank(text@)),
{
    count == 0 && !str_is_blank(text)
}

/// Turns what the status command left behind into records. A command that
/// failed is an error that carries what the command wrote as diagnosis;
/// otherwise its output is read, and a listing that is not blank and still
/// gives no record is marked, but is no error.
pub fn nodes_from_status(success: bool, stdout: &str, stderr: &str) -> (listing: Result<
    Listing,
    StatusError,
>)
    ensures
        listing is Ok <==> success && pattern_accepted(NODE_PATTERN@),
        match listing {
            Ok(l) => record_views(l.nodes@) == records_of(stdout@) && l.unreadable == (records_of(
                stdout@,
            ).len() == 0 && !is_blank(stdout@)),
            Err(StatusError::CommandFailed(diagnosis)) => !success && diagnosis@ == stderr@,
            Err(StatusError::Pattern) => success,
        },
{
    if !success {
        return Err(StatusError::CommandFailed(stderr.to_owned()));
    }
    match parse_status(stdout) {
        Ok(nodes) => {
            let unreadable = is_unreadable(stdout, nodes.len());
            Ok(Listing { nodes, unreadable })
        },
        Err(e) => Err(e),
    }
}

impl StatusError {
    /// The message of the error as a sentence for the user.
    pub open spec fn message_text(self) -> Seq<char> {
        match self {
            StatusError::CommandFailed(diagnosis) => "Tailscale status command failed: "@
                + diagnosis@ + ". Make sure Tailscale is connected."@,
            StatusError::Pattern => "The pattern of a node line was refused"@,
        }
    }

    /// The message of the error as a sentence for the user.
    pub fn message(&self) -> (text: String)
        ensures
            text@ == self.message_text(),
    {
        match self {
            StatusError::CommandFailed(diagnosis) => {
                let mut text = "Tailscale status command failed: ".to_owned();
                text.append(diagnosis.as_str());
                text.append(". Make sure Tailscale is connected.");
                text
            },
            StatusError::Pattern => "The pattern of a node line was refused".to_owned(),
        }
    }
}

/// A blank line gives no record, and neither does a line that holds
/// `tagmap` or `subnet` anywhere, whatever else stands in it.
pub proof fn lemma_skipped_lines_give_nothing(line: Seq<char>)
    requires
        is_blank(line) || contains_text(line, "tagmap"@) || contains_text(line, "subnet"@),
    ensures
        line_record(line) is None,
{
}

/// Every record of a listing has a name and an address, and comes from a
/// line of the listing that is not passed over and has the shape of a node
/// line.
pub proof fn lemma_records_come_from_lines(text: Seq<char>)
    ensures
        forall|i: int|
            0 <= i < records_of(text).len() ==> {
                let record = #[trigger] records_of(text)[i];
                &&& record.valid()
                &&& exists|k: int|
                    0 <= k < lines_of(text).len() && !skipped(lines_of(text)[k]) && line_record(
                        #[trigger] lines_of(text)[k],
                    ) == Some(record)
            },
{
    let lines = lines_of(text);
    let pick = |line: Seq<char>| line_record(line);
    assert forall|i: int| 0 <= i < records_of(text).len() implies {
        let record = #[trigger] records_of(text)[i];
        &&& record.valid()
        &&& exists|k: int|
            0 <= k < lines.len() && !skipped(lines[k]) && line_record(#[trigger] lines[k])
                == Some(record)
    } by {
        let record = records_of(text)[i];
        assert(lines.filter_map(pick).contains(record));
        lines.lemma_filter_map_contains(pick, record);
        let line = choose|line: Seq<char>| #[trigger] lines.contains(line) && pick(line) == Some(record);
        let k = choose|k: int| 0 <= k < lines.len() && lines[k] == line;
        assert(line_record(lines[k]) == Some(record));
    }
}

} // verus!
