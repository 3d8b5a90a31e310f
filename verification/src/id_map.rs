//! Identity mappings for an unprivileged user namespace: the single-entry
//! uid/gid mapping records, their one-line text form, and the fixed order of
//! the three kernel control-file writes that install them.

use vstd::prelude::*;

use crate::decimal::{
    decimal_rep, lemma_decimal_rep_digits, lemma_decimal_value_of_rep, lemma_skip_spaces_segment,
    lemma_token_end_segment, is_decimal_digit, is_space, number_token_ok, parse_three_numbers,
    token_value, format_u32, parse_numbers_line, line_end, lemma_line_end_bounds, find_line_end,
};

verus! {

/// Which identity space a mapping record belongs to.
#[derive(Clone, Copy, Debug, PartialEq, Eq, Structural)]
pub enum IdKind {
    User,
    Group,
}

/// One identity-mapping record: ids `outside_id..outside_id + count` outside
/// the namespace appear as `inside_id..inside_id + count` inside it.
#[derive(Clone, Copy, Debug, PartialEq, Eq, Structural)]
pub struct IdentityMapping {
    pub kind: IdKind,
    pub inside_id: u32,
    pub outside_id: u32,
    pub count: u32,
}

/// The one-line text form of a mapping record: three whitespace-separated
/// decimal numbers.
pub open spec fn mapping_line_spec(inside_id: u32, outside_id: u32, count: u32) -> Seq<char> {
    decimal_rep(inside_id as nat) + seq![' '] + decimal_rep(outside_id as nat) + seq![' ']
        + decimal_rep(count as nat)
}

impl IdentityMapping {
    /// A mapping record must cover at least one id.
    pub open spec fn wf(self) -> bool {
        self.count >= 1
    }

    /// The only mapping this launcher ever writes: the current id mapped to
    /// itself, covering exactly one id.
    pub fn self_mapping(kind: IdKind, id: u32) -> (m: IdentityMapping)
        ensures
            m.kind == kind,
            m.inside_id == id,
            m.outside_id == id,
            m.count == 1,
            m.wf(),
    {
        IdentityMapping { kind, inside_id: id, outside_id: id, count: 1 }
    }

    /// Serializes the record to its one-line form.
    pub fn to_line(&self) -> (s: String)
        ensures
            s@ == mapping_line_spec(self.inside_id, self.outside_id, self.count),
    {
        proof {
            reveal_strlit(" ");
        }
        let s = format_u32(self.inside_id);
        let s = s.concat(" ");
        let s = s.concat(format_u32(self.outside_id).as_str());
        let s = s.concat(" ");
        let s = s.concat(format_u32(self.count).as_str());
        proof {
            assert(s@ =~= mapping_line_spec(self.inside_id, self.outside_id, self.count));
        }
        s
    }

    /// Parses a one-line mapping of the given kind back to a record.
    pub fn parse_line(kind: IdKind, s: &str) -> (r: Option<IdentityMapping>)
        ensures
            r is Some <==> parse_three_numbers(s@) is Some,
            r matches Some(m) ==> {
                &&& parse_three_numbers(s@) matches Some(t)
                &&& m.kind == kind
                &&& m.inside_id == t.0
                &&& m.outside_id == t.1
                &&& m.count == t.2
            },
    {
        match parse_numbers_line(s) {
            None => None,
            Some((inside_id, outside_id, count)) => Some(
                IdentityMapping { kind, inside_id, outside_id, count },
            ),
        }
    }
}

/// Parsing the line form of any three numbers yields those numbers back.
proof fn lemma_parse_three_of_line(a: u32, b: u32, c: u32)
    ensures
        parse_three_numbers(mapping_line_spec(a, b, c)) == Some((a, b, c)),
{
    let ra = decimal_rep(a as nat);
    let rb = decimal_rep(b as nat);
    let rc = decimal_rep(c as nat);
    let l = mapping_line_spec(a, b, c);
    let la = ra.len() as int;
    let lb = rb.len() as int;
    let lc = rc.len() as int;
    lemma_decimal_rep_digits(a as nat);
    lemma_decimal_rep_digits(b as nat);
    lemma_decimal_rep_digits(c as nat);
    lemma_decimal_value_of_rep(a as nat);
    lemma_decimal_value_of_rep(b as nat);
    lemma_decimal_value_of_rep(c as nat);
    assert(l.len() == la + lb + lc + 2);
    assert forall|k: int| 0 <= k < la implies !is_space(#[trigger] l[k]) by {
        assert(l[k] == ra[k]);
        assert(is_decimal_digit(ra[k]));
    }
    assert(is_space(l[la]));
    assert forall|k: int| la + 1 <= k < la + 1 + lb implies !is_space(#[trigger] l[k]) by {
        assert(l[k] == rb[k - la - 1]);
        assert(is_decimal_digit(rb[k - la - 1]));
    }
    assert(is_space(l[la + 1 + lb]));
    assert forall|k: int| la + 2 + lb <= k < l.len() implies !is_space(#[trigger] l[k]) by {
        assert(l[k] == rc[k - la - 2 - lb]);
        assert(is_decimal_digit(rc[k - la - 2 - lb]));
    }
    lemma_skip_spaces_segment(l, 0, 0);
    lemma_token_end_segment(l, 0, la);
    assert(l.subrange(0, la) =~= ra);
    lemma_skip_spaces_segment(l, la, la + 1);
    lemma_token_end_segment(l, la + 1, la + 1 + lb);
    assert(l.subrange(la + 1, la + 1 + lb) =~= rb);
    lemma_skip_spaces_segment(l, la + 1 + lb, la + 2 + lb);
    lemma_token_end_segment(l, la + 2 + lb, l.len() as int);
    assert(l.subrange(la + 2 + lb, l.len() as int) =~= rc);
    assert(number_token_ok(l, 0));
    assert(number_token_ok(l, la + 1));
    assert(number_token_ok(l, la + 2 + lb));
    assert(token_value(l, 0) == a);
    assert(token_value(l, la + 1) == b);
    assert(token_value(l, la + 2 + lb) == c);
}

/// Round trip: a mapping record with nonnegative ids and a positive count
/// serializes to a line that parses back to the identical record.
pub proof fn lemma_mapping_line_round_trip(m: IdentityMapping)
    requires
        m.count >= 1,
    ensures
        parse_three_numbers(mapping_line_spec(m.inside_id, m.outside_id, m.count)) == Some(
            (m.inside_id, m.outside_id, m.count),
        ),
{
    lemma_parse_three_of_line(m.inside_id, m.outside_id, m.count);
}

/// The three numbers of each mapping record, in line order.
pub open spec fn mapping_triples(v: Seq<IdentityMapping>) -> Seq<(u32, u32, u32)> {
    v.map_values(|m: IdentityMapping| (m.inside_id, m.outside_id, m.count))
}

/// The parse of a whole identity-map text from position `i` on: one
/// mapping per line, every line must parse.
pub open spec fn parse_lines_from(s: Seq<char>, i: int) -> Option<Seq<(u32, u32, u32)>>
    decreases s.len() - i,
    via parse_lines_from_dec
{
    if !(0 <= i <= s.len()) {
        None
    } else if i == s.len() {
        Some(Seq::empty())
    } else {
        let e = line_end(s, i);
        match parse_three_numbers(s.subrange(i, e)) {
            None => None,
            Some(t) => if e == s.len() {
                Some(seq![t])
            } else {
                match parse_lines_from(s, e + 1) {
                    None => None,
                    Some(rest) => Some(seq![t] + rest),
                }
            },
        }
    }
}

#[via_fn]
proof fn parse_lines_from_dec(s: Seq<char>, i: int) {
    if 0 <= i < s.len() {
        lemma_line_end_bounds(s, i);
    }
}

/// Parses the full text of an identity-map file: one mapping record per
/// line, of the given kind.
pub fn parse_id_map_text(kind: IdKind, s: &str) -> (r: Option<Vec<IdentityMapping>>)
    ensures
        r is Some <==> parse_lines_from(s@, 0) is Some,
        r matches Some(v) ==> {
            &&& parse_lines_from(s@, 0) == Some(mapping_triples(v@))
            &&& forall|k: int| 0 <= k < v@.len() ==> (#[trigger] v@[k]).kind == kind
        },
{
    let n = s.unicode_len();
    let mut pos: usize = 0;
    let mut out: Vec<IdentityMapping> = Vec::new();
    loop
        invariant
            0 <= pos <= n,
            n == s@.len(),
            forall|k: int| 0 <= k < out@.len() ==> (#[trigger] out@[k]).kind == kind,
            parse_lines_from(s@, 0) is Some <==> parse_lines_from(s@, pos as int) is Some,
            parse_lines_from(s@, pos as int) matches Some(rest) ==> parse_lines_from(s@, 0)
                == Some(mapping_triples(out@) + rest),
        ensures
            pos == n,
            n == s@.len(),
            forall|k: int| 0 <= k < out@.len() ==> (#[trigger] out@[k]).kind == kind,
            parse_lines_from(s@, 0) is Some <==> parse_lines_from(s@, pos as int) is Some,
            parse_lines_from(s@, pos as int) matches Some(rest) ==> parse_lines_from(s@, 0)
                == Some(mapping_triples(out@) + rest),
        decreases n - pos,
    {
        if pos >= n {
            break ;
        }
        let e = find_line_end(s, pos);
        let line = s.substring_char(pos, e);
        proof {
            assert(line@ =~= s@.subrange(pos as int, line_end(s@, pos as int)));
        }
        match parse_numbers_line(line) {
            None => {
                proof {
                    assert(parse_lines_from(s@, pos as int) is None);
                }
                return None;
            },
            Some((inside_id, outside_id, count)) => {
                let m = IdentityMapping { kind, inside_id, outside_id, count };
                let ghost old_out = out@;
                let ghost t = (inside_id, outside_id, count);
                out.push(m);
                proof {
                    assert(mapping_triples(out@) =~= mapping_triples(old_out).push(t));
                }
                if e >= n {
                    proof {
                        assert(parse_lines_from(s@, pos as int) == Some(seq![t]));
                        if parse_lines_from(s@, 0) is Some {
                            assert(mapping_triples(old_out) + seq![t] =~= mapping_triples(out@));
                            assert(mapping_triples(out@) + Seq::<(u32, u32, u32)>::empty()
                                =~= mapping_triples(out@));
                        }
                    }
                    pos = n;
                } else {
                    proof {
                        if parse_lines_from(s@, e as int + 1) is Some {
                            let rest = parse_lines_from(s@, e as int + 1).unwrap();
                            assert(parse_lines_from(s@, pos as int) == Some(seq![t] + rest));
                            if parse_lines_from(s@, 0) is Some {
                                assert(mapping_triples(old_out) + (seq![t] + rest)
                                    =~= mapping_triples(out@) + rest);
                            }
                        }
                    }
                    pos = e + 1;
                }
            },
        }
    }
    proof {
        assert(parse_lines_from(s@, pos as int) == Some(Seq::<(u32, u32, u32)>::empty()));
        assert(mapping_triples(out@) + Seq::<(u32, u32, u32)>::empty() =~= mapping_triples(out@));
    }
    Some(out)
}

/// The kernel control files that install an identity mapping.
#[derive(Clone, Copy, Debug, PartialEq, Eq, Structural)]
pub enum ControlFile {
    UidMap,
    SetGroups,
    GidMap,
}

/// One pending write of `content` to a control file.
pub struct ControlWrite {
    pub target: ControlFile,
    pub content: String,
}

/// The deny directive that disables supplementary groups.
pub open spec fn deny_directive() -> Seq<char> {
    "deny"@
}

/// The path of each control file, under the calling process's own entry.
pub fn control_file_path(f: &ControlFile) -> (s: String)
    ensures
        f is UidMap ==> s@ == "/proc/self/uid_map"@,
        f is SetGroups ==> s@ == "/proc/self/setgroups"@,
        f is GidMap ==> s@ == "/proc/self/gid_map"@,
{
    match f {
        ControlFile::UidMap => String::from_str("/proc/self/uid_map"),
        ControlFile::SetGroups => String::from_str("/proc/self/setgroups"),
        ControlFile::GidMap => String::from_str("/proc/self/gid_map"),
    }
}

/// The control-file writes that map the caller to itself inside a new user
/// namespace, in the one order the kernel accepts from an unprivileged
/// writer: the user-id map, then the supplementary-group deny directive,
/// then the group-id map.
pub fn id_map_writes(uid: u32, gid: u32) -> (v: Vec<ControlWrite>)
    ensures
        v@.len() == 3,
        v@[0].target is UidMap,
        v@[0].content@ == mapping_line_spec(uid, uid, 1),
        v@[1].target is SetGroups,
        v@[1].content@ == deny_directive(),
        v@[2].target is GidMap,
        v@[2].content@ == mapping_line_spec(gid, gid, 1),
{
    let uid_map = IdentityMapping::self_mapping(IdKind::User, uid);
    let gid_map = IdentityMapping::self_mapping(IdKind::Group, gid);
    let mut v: Vec<ControlWrite> = Vec::new();
    v.push(ControlWrite { target: ControlFile::UidMap, content: uid_map.to_line() });
    v.push(ControlWrite { target: ControlFile::SetGroups, content: String::from_str("deny") });
    v.push(ControlWrite { target: ControlFile::GidMap, content: gid_map.to_line() });
    v
}

} // verus!
