//! The parity checker's reading of its inputs: release versions and tags,
//! fields and module rows of the parity table, and the cross-reference of
//! upstream changed files against those rows.

use vstd::prelude::*;

use crate::text::{
    ascii_lowercase, chars_end_with, chars_eq_ignore_ascii_case, chars_start_with, chars_vec,
    ends_with, eq_ignore_ascii_case, lines_of, lines_str, split_char, split_chars, starts_with,
    string_from_chars, str_eq, trim, trim_chars, trim_prefix_all, trim_prefix_all_chars,
    vecs_view,
};

verus! {

/// The value of a sequence of decimal digits.
pub open spec fn digits_value(d: Seq<char>) -> nat
    decreases d.len(),
{
    if d.len() == 0 {
        0
    } else {
        digits_value(d.drop_last()) * 10 + ((d.last() as int) - ('0' as int)) as nat
    }
}

/// Every character is an ASCII digit.
pub open spec fn all_digits(d: Seq<char>) -> bool {
    forall|i: int| 0 <= i < d.len() ==> '0' <= #[trigger] d[i] <= '9'
}

/// `u32::from_str`: an optional `+`, then one or more ASCII digits whose
/// value fits in 32 bits.
pub open spec fn parse_u32_spec(s: Seq<char>) -> Option<u32> {
    let d = if s.len() > 0 && s[0] == '+' {
        s.drop_first()
    } else {
        s
    };
    if d.len() > 0 && all_digits(d) && digits_value(d) <= u32::MAX {
        Some(digits_value(d) as u32)
    } else {
        None
    }
}

proof fn lemma_digits_prefix_le(d: Seq<char>, k: int)
    requires
        all_digits(d),
        0 <= k <= d.len(),
    ensures
        digits_value(d.take(k)) <= digits_value(d),
    decreases d.len() - k,
{
    if k < d.len() {
        lemma_digits_prefix_le(d, k + 1);
        assert(d.take(k + 1).drop_last() =~= d.take(k));
        assert(d.take(k + 1).last() == d[k]);
    } else {
        assert(d.take(k) =~= d);
    }
}

/// `u32::from_str`, over characters.
pub fn parse_u32(s: &[char]) -> (r: Option<u32>)
    ensures
        r == parse_u32_spec(s@),
{
    let n = s.len();
    if n == 0 {
        return None;
    }
    let start: usize = if s[0] == '+' {
        1
    } else {
        0
    };
    let ghost d = if s@.len() > 0 && s@[0] == '+' {
        s@.drop_first()
    } else {
        s@
    };
    assert(d =~= s@.skip(start as int));
    if start == n {
        return None;
    }
    let mut acc: u64 = 0;
    let mut j: usize = start;
    while j < n
        invariant
            start <= j <= n,
            n == s@.len(),
            d == s@.skip(start as int),
            d == (if s@.len() > 0 && s@[0] == '+' {
                s@.drop_first()
            } else {
                s@
            }),
            acc == digits_value(d.take(j - start)),
            acc <= u32::MAX,
            forall|k: int| 0 <= k < j - start ==> '0' <= #[trigger] d[k] <= '9',
        decreases n - j,
    {
        let c = s[j];
        assert(d[j - start] == c);
        if !('0' <= c && c <= '9') {
            assert(!all_digits(d));
            return None;
        }
        let dv: u64 = ((c as u32) - ('0' as u32)) as u64;
        assert(d.take(j - start + 1).drop_last() =~= d.take(j - start));
        acc = acc * 10 + dv;
        j = j + 1;
        if acc > 0xffff_ffffu64 {
            proof {
                if all_digits(d) {
                    lemma_digits_prefix_le(d, j - start);
                }
            }
            return None;
        }
    }
    assert(d.take(n - start) =~= d);
    Some(acc as u32)
}

/// A `major.minor.patch` version: three dot-separated `u32`s.
pub open spec fn parse_ver_spec(v: Seq<char>) -> Option<(u32, u32, u32)> {
    let p = split_char(v, '.');
    if p.len() == 3 {
        match (parse_u32_spec(p[0]), parse_u32_spec(p[1]), parse_u32_spec(p[2])) {
            (Some(a), Some(b), Some(c)) => Some((a, b, c)),
            _ => None,
        }
    } else {
        None
    }
}

/// Parses a `major.minor.patch` version.
pub fn parse_ver(v: &str) -> (r: Option<(u32, u32, u32)>)
    ensures
        r == parse_ver_spec(v@),
{
    let cs = chars_vec(v);
    let parts = split_chars(cs.as_slice(), '.');
    if parts.len() != 3 {
        return None;
    }
    assert(parts@[0]@ == vecs_view(parts@)[0]);
    assert(parts@[1]@ == vecs_view(parts@)[1]);
    assert(parts@[2]@ == vecs_view(parts@)[2]);
    let a = parse_u32(parts[0].as_slice());
    let b = parse_u32(parts[1].as_slice());
    let c = parse_u32(parts[2].as_slice());
    match (a, b, c) {
        (Some(a), Some(b), Some(c)) => Some((a, b, c)),
        _ => None,
    }
}

/// Lexicographic order of versions.
pub open spec fn ver_lt(a: (u32, u32, u32), b: (u32, u32, u32)) -> bool {
    a.0 < b.0 || (a.0 == b.0 && (a.1 < b.1 || (a.1 == b.1 && a.2 < b.2)))
}

/// Is a newer release out: the latest tag parses, and the pinned version
/// is below it (a pinned version that does not parse counts as below any).
pub open spec fn newer_release_spec(pinned: Option<Seq<char>>, latest: Seq<char>) -> bool {
    match (pinned, parse_ver_spec(latest)) {
        (Some(pv), Some(lv)) => match parse_ver_spec(pv) {
            Some(p) => ver_lt(p, lv),
            None => true,
        },
        _ => false,
    }
}

/// Is a newer release out than the pinned version?
pub fn newer_release(pinned: Option<&str>, latest: &str) -> (b: bool)
    ensures
        b == newer_release_spec(
            match pinned {
                Some(p) => Some(p@),
                None => None,
            },
            latest@,
        ),
{
    match (pinned, parse_ver(latest)) {
        (Some(pv), Some(lv)) => match parse_ver(pv) {
            Some(p) => p.0 < lv.0 || (p.0 == lv.0 && (p.1 < lv.1 || (p.1 == lv.1 && p.2 < lv.2))),
            None => true,
        },
        _ => false,
    }
}

/// The first line that is a version.
pub open spec fn first_version(lines: Seq<Seq<char>>) -> Option<Seq<char>>
    decreases lines.len(),
{
    if lines.len() == 0 {
        None
    } else if parse_ver_spec(lines[0]) is Some {
        Some(lines[0])
    } else {
        first_version(lines.drop_first())
    }
}

/// Strings as character sequences.
pub open spec fn strings_view(v: Seq<String>) -> Seq<Seq<char>> {
    v.map_values(|x: String| x@)
}

/// The latest release tag in a tag listing sorted newest first: its first
/// line that is a version.
pub fn latest_tag(tags: &str) -> (r: Option<String>)
    ensures
        match r {
            Some(t) => first_version(lines_of(tags@)) == Some(t@),
            None => first_version(lines_of(tags@)) is None,
        },
{
    let lines = lines_str(tags);
    let ghost ls = strings_view(lines@);
    let mut i: usize = 0;
    assert(ls.skip(0) =~= ls);
    while i < lines.len()
        invariant
            i <= lines@.len(),
            ls == strings_view(lines@),
            ls == lines_of(tags@),
            first_version(ls) == first_version(ls.skip(i as int)),
        decreases lines@.len() - i,
    {
        let ghost rest = ls.skip(i as int);
        assert(rest[0] == lines@[i as int]@);
        assert(rest.drop_first() =~= ls.skip(i + 1));
        if parse_ver(lines[i].as_str()).is_some() {
            return Some(lines[i].clone());
        }
        i = i + 1;
    }
    None
}

/// The value of the first line of the form `key: value` (after trimming),
/// trimmed.
pub open spec fn field_in(lines: Seq<Seq<char>>, prefix: Seq<char>) -> Option<Seq<char>>
    decreases lines.len(),
{
    if lines.len() == 0 {
        None
    } else if starts_with(trim(lines[0]), prefix) {
        Some(trim(trim(lines[0]).skip(prefix.len() as int)))
    } else {
        field_in(lines.drop_first(), prefix)
    }
}

/// The value of the field `key` (a line `key: value`) of a document.
pub fn extract_field(md: &str, key: &str) -> (r: Option<String>)
    ensures
        match r {
            Some(v) => field_in(lines_of(md@), key@ + ":"@) == Some(v@),
            None => field_in(lines_of(md@), key@ + ":"@) is None,
        },
{
    let mut pv = chars_vec(key);
    pv.push(':');
    proof {
        reveal_strlit(":");
    }
    assert(pv@ =~= key@ + ":"@);
    let lines = lines_str(md);
    let ghost ls = strings_view(lines@);
    let mut i: usize = 0;
    assert(ls.skip(0) =~= ls);
    while i < lines.len()
        invariant
            i <= lines@.len(),
            ls == strings_view(lines@),
            ls == lines_of(md@),
            pv@ == key@ + ":"@,
            field_in(ls, pv@) == field_in(ls.skip(i as int), pv@),
        decreases lines@.len() - i,
    {
        let ghost rest = ls.skip(i as int);
        assert(rest[0] == lines@[i as int]@);
        assert(rest.drop_first() =~= ls.skip(i + 1));
        let lc = chars_vec(lines[i].as_str());
        let t = trim_chars(lc.as_slice());
        if chars_start_with(t.as_slice(), pv.as_slice()) {
            let mut tail: Vec<char> = Vec::new();
            let mut k: usize = pv.len();
            while k < t.len()
                invariant
                    pv@.len() <= k <= t@.len(),
                    tail@ == t@.subrange(pv@.len() as int, k as int),
                decreases t@.len() - k,
            {
                tail.push(t[k]);
                k = k + 1;
                assert(tail@ =~= t@.subrange(pv@.len() as int, k as int));
            }
            assert(tail@ =~= t@.skip(pv@.len() as int));
            let v = trim_chars(tail.as_slice());
            return Some(string_from_chars(v.as_slice()));
        }
        i = i + 1;
    }
    None
}

/// A module row of the parity table.
#[derive(Debug, Clone)]
pub struct ParityRow {
    pub module: String,
    pub sources: Vec<String>,
    pub status: String,
}

/// The view of a row: module, upstream sources, status.
pub type RowV = (Seq<char>, Seq<Seq<char>>, Seq<char>);

/// The view of a row.
pub open spec fn row_view(r: ParityRow) -> RowV {
    (r.module@, strings_view(r.sources@), r.status@)
}

/// The views of rows.
pub open spec fn rows_view(rs: Seq<ParityRow>) -> Seq<RowV> {
    rs.map_values(|r: ParityRow| row_view(r))
}

/// The non-empty items, in order.
pub open spec fn non_empty(s: Seq<Seq<char>>) -> Seq<Seq<char>>
    decreases s.len(),
{
    if s.len() == 0 {
        seq![]
    } else if s.last().len() == 0 {
        non_empty(s.drop_last())
    } else {
        non_empty(s.drop_last()).push(s.last())
    }
}

/// The sources of a row: its comma-separated items, trimmed, without the
/// `yfinance/` prefix, empty ones left out.
pub open spec fn source_list(src: Seq<char>) -> Seq<Seq<char>> {
    non_empty(
        split_char(src, ',').map_values(|x: Seq<char>| trim_prefix_all(trim(x), "yfinance/"@)),
    )
}

/// Is every character a dash?
pub open spec fn all_dashes(s: Seq<char>) -> bool {
    forall|i: int| 0 <= i < s.len() ==> #[trigger] s[i] == '-'
}

/// The module row a table line holds: a line starting with `|` (after
/// trimming) with at least five `|`-separated cells, whose module, sources
/// and status cells are not empty, that is neither the header row nor a
/// separator row.
pub open spec fn row_of_line(l: Seq<char>) -> Option<RowV> {
    let line = trim(l);
    if !(line.len() > 0 && line[0] == '|') {
        None
    } else {
        let cols = split_char(line, '|').map_values(|c: Seq<char>| trim(c));
        if cols.len() < 5 {
            None
        } else if cols[1].len() == 0 || cols[2].len() == 0 || cols[4].len() == 0 {
            None
        } else if eq_ignore_ascii_case(cols[1], "rust module"@) {
            None
        } else if all_dashes(cols[4]) {
            None
        } else {
            Some((cols[1], source_list(cols[2]), cols[4]))
        }
    }
}

/// The rows held by lines, in order.
pub open spec fn rows_of_lines(lines: Seq<Seq<char>>) -> Seq<RowV>
    decreases lines.len(),
{
    if lines.len() == 0 {
        seq![]
    } else {
        match row_of_line(lines.last()) {
            Some(r) => rows_of_lines(lines.drop_last()).push(r),
            None => rows_of_lines(lines.drop_last()),
        }
    }
}

fn trimmed_pieces(pieces: &Vec<Vec<char>>) -> (r: Vec<Vec<char>>)
    ensures
        vecs_view(r@) == vecs_view(pieces@).map_values(|c: Seq<char>| trim(c)),
{
    let mut out: Vec<Vec<char>> = Vec::new();
    let mut i: usize = 0;
    while i < pieces.len()
        invariant
            i <= pieces@.len(),
            vecs_view(out@) == vecs_view(pieces@.take(i as int)).map_values(
                |c: Seq<char>| trim(c),
            ),
        decreases pieces@.len() - i,
    {
        let ghost prev = out@;
        out.push(trim_chars(pieces[i].as_slice()));
        i = i + 1;
        assert(vecs_view(out@) =~= vecs_view(prev).push(trim(pieces@[i - 1]@)));
        assert(vecs_view(pieces@.take(i as int)).map_values(|c: Seq<char>| trim(c)) =~= vecs_view(
            pieces@.take(i - 1),
        ).map_values(|c: Seq<char>| trim(c)).push(trim(pieces@[i - 1]@)));
    }
    assert(pieces@.take(pieces@.len() as int) =~= pieces@);
    out
}

fn sources_of(src: &Vec<char>) -> (r: Vec<String>)
    ensures
        strings_view(r@) == source_list(src@),
{
    let pieces = split_chars(src.as_slice(), ',');
    let prefix = chars_vec("yfinance/");
    let ghost mapped = split_char(src@, ',').map_values(
        |x: Seq<char>| trim_prefix_all(trim(x), "yfinance/"@),
    );
    let mut out: Vec<String> = Vec::new();
    let mut i: usize = 0;
    while i < pieces.len()
        invariant
            i <= pieces@.len(),
            vecs_view(pieces@) == split_char(src@, ','),
            prefix@ == "yfinance/"@,
            mapped == split_char(src@, ',').map_values(
                |x: Seq<char>| trim_prefix_all(trim(x), "yfinance/"@),
            ),
            strings_view(out@) == non_empty(mapped.take(i as int)),
        decreases pieces@.len() - i,
    {
        let t = trim_chars(pieces[i].as_slice());
        let s = trim_prefix_all_chars(t.as_slice(), prefix.as_slice());
        assert(s@ == mapped[i as int]);
        assert(mapped.take(i + 1).drop_last() =~= mapped.take(i as int));
        if s.len() > 0 {
            let ghost prev = out@;
            out.push(string_from_chars(s.as_slice()));
            assert(strings_view(out@) =~= strings_view(prev).push(s@));
        }
        i = i + 1;
    }
    assert(mapped.take(pieces@.len() as int) =~= mapped);
    out
}

fn all_dash_chars(s: &Vec<char>) -> (r: bool)
    ensures
        r == all_dashes(s@),
{
    let mut i: usize = 0;
    while i < s.len()
        invariant
            i <= s@.len(),
            forall|j: int| 0 <= j < i ==> #[trigger] s@[j] == '-',
        decreases s@.len() - i,
    {
        if s[i] != '-' {
            return false;
        }
        i = i + 1;
    }
    true
}

/// The module row of one table line.
pub fn parse_row(line: &str) -> (r: Option<ParityRow>)
    ensures
        match r {
            Some(row) => row_of_line(line@) == Some(row_view(row)),
            None => row_of_line(line@) is None,
        },
{
    let lc = chars_vec(line);
    let t = trim_chars(lc.as_slice());
    if !(t.len() > 0 && t[0] == '|') {
        return None;
    }
    let raw = split_chars(t.as_slice(), '|');
    let cols = trimmed_pieces(&raw);
    let ghost cv = vecs_view(cols@);
    assert(cv == split_char(trim(line@), '|').map_values(|c: Seq<char>| trim(c)));
    if cols.len() < 5 {
        return None;
    }
    assert(cols@[1]@ == cv[1] && cols@[2]@ == cv[2] && cols@[4]@ == cv[4]);
    if cols[1].len() == 0 || cols[2].len() == 0 || cols[4].len() == 0 {
        return None;
    }
    let header = chars_vec("rust module");
    if chars_eq_ignore_ascii_case(cols[1].as_slice(), header.as_slice()) {
        return None;
    }
    if all_dash_chars(&cols[4]) {
        return None;
    }
    Some(
        ParityRow {
            module: string_from_chars(cols[1].as_slice()),
            sources: sources_of(&cols[2]),
            status: string_from_chars(cols[4].as_slice()),
        },
    )
}

/// The module rows of the parity table, in order.
pub fn parse_parity_rows(md: &str) -> (rows: Vec<ParityRow>)
    ensures
        rows_view(rows@) == rows_of_lines(lines_of(md@)),
{
    let lines = lines_str(md);
    let ghost ls = strings_view(lines@);
    let mut rows: Vec<ParityRow> = Vec::new();
    let mut i: usize = 0;
    while i < lines.len()
        invariant
            i <= lines@.len(),
            ls == strings_view(lines@),
            ls == lines_of(md@),
            rows_view(rows@) == rows_of_lines(ls.take(i as int)),
        decreases lines@.len() - i,
    {
        assert(ls.take(i + 1).drop_last() =~= ls.take(i as int));
        assert(ls.take(i + 1).last() == lines@[i as int]@);
        match parse_row(lines[i].as_str()) {
            Some(r) => {
                let ghost prev = rows@;
                rows.push(r);
                assert(rows_view(rows@) =~= rows_view(prev).push(row_view(r)));
            },
            None => {},
        }
        i = i + 1;
    }
    assert(ls.take(lines@.len() as int) =~= ls);
    rows
}

/// The non-empty lines of a listing of changed files.
pub fn changed_files(listing: &str) -> (files: Vec<String>)
    ensures
        strings_view(files@) == non_empty(lines_of(listing@)),
{
    let lines = lines_str(listing);
    let ghost ls = strings_view(lines@);
    let mut out: Vec<String> = Vec::new();
    let mut i: usize = 0;
    while i < lines.len()
        invariant
            i <= lines@.len(),
            ls == strings_view(lines@),
            ls == lines_of(listing@),
            strings_view(out@) == non_empty(ls.take(i as int)),
        decreases lines@.len() - i,
    {
        assert(ls.take(i + 1).drop_last() =~= ls.take(i as int));
        assert(ls.take(i + 1).last() == lines@[i as int]@);
        proof {
            reveal_strlit("");
            assert(""@ =~= Seq::<char>::empty());
        }
        if !str_eq(lines[i].as_str(), "") {
            assert(ls[i as int] == lines@[i as int]@);
            proof {
                if ls[i as int].len() == 0 {
                    assert(ls[i as int] =~= Seq::<char>::empty());
                }
            }
            let ghost prev = out@;
            out.push(lines[i].clone());
            assert(strings_view(out@) =~= strings_view(prev).push(ls[i as int]));
        }
        i = i + 1;
    }
    assert(ls.take(lines@.len() as int) =~= ls);
    out
}

/// Does a changed file (without its `yfinance/` prefix) belong to one of a
/// row's sources: equal to it, or ending in `/` and it?
pub open spec fn file_hits(norm: Seq<char>, sources: Seq<Seq<char>>) -> bool {
    exists|i: int|
        0 <= i < sources.len() && (norm == #[trigger] sources[i] || ends_with(
            norm,
            "/"@ + sources[i],
        ))
}

/// The rows a changed file affects, in order, keeping those whose status
/// is not `todo` (`review`) or those whose status is `todo` (`!review`).
pub open spec fn hits(norm: Seq<char>, rows: Seq<RowV>, review: bool) -> Seq<RowV>
    decreases rows.len(),
{
    if rows.len() == 0 {
        seq![]
    } else {
        let rest = hits(norm, rows.drop_last(), review);
        let r = rows.last();
        if file_hits(norm, r.1) && (r.2 != "todo"@) == review {
            rest.push(r)
        } else {
            rest
        }
    }
}

/// The affected rows of every changed file, file by file.
pub open spec fn drift_rows(files: Seq<Seq<char>>, rows: Seq<RowV>, review: bool) -> Seq<RowV>
    decreases files.len(),
{
    if files.len() == 0 {
        seq![]
    } else {
        drift_rows(files.drop_last(), rows, review) + hits(
            trim_prefix_all(files.last(), "yfinance/"@),
            rows,
            review,
        )
    }
}

fn clone_row(r: &ParityRow) -> (c: ParityRow)
    ensures
        row_view(c) == row_view(*r),
{
    let mut sources: Vec<String> = Vec::new();
    let mut i: usize = 0;
    while i < r.sources.len()
        invariant
            i <= r.sources@.len(),
            strings_view(sources@) == strings_view(r.sources@.take(i as int)),
        decreases r.sources@.len() - i,
    {
        let ghost prev = sources@;
        sources.push(r.sources[i].clone());
        i = i + 1;
        assert(strings_view(sources@) =~= strings_view(prev).push(r.sources@[i - 1]@));
        assert(strings_view(r.sources@.take(i as int)) =~= strings_view(r.sources@.take(i - 1)).push(
            r.sources@[i - 1]@,
        ));
    }
    assert(r.sources@.take(r.sources@.len() as int) =~= r.sources@);
    ParityRow { module: r.module.clone(), sources, status: r.status.clone() }
}

fn row_hit(norm: &Vec<char>, r: &ParityRow) -> (b: bool)
    ensures
        b == file_hits(norm@, strings_view(r.sources@)),
{
    let ghost sv = strings_view(r.sources@);
    let mut i: usize = 0;
    while i < r.sources.len()
        invariant
            i <= r.sources@.len(),
            sv == strings_view(r.sources@),
            forall|j: int|
                0 <= j < i ==> !(norm@ == #[trigger] sv[j] || ends_with(norm@, "/"@ + sv[j])),
        decreases r.sources@.len() - i,
    {
        let sc = chars_vec(r.sources[i].as_str());
        let mut slash_s: Vec<char> = vec!['/'];
        let mut k: usize = 0;
        while k < sc.len()
            invariant
                k <= sc@.len(),
                slash_s@ == seq!['/'] + sc@.take(k as int),
            decreases sc@.len() - k,
        {
            slash_s.push(sc[k]);
            k = k + 1;
            assert(slash_s@ =~= seq!['/'] + sc@.take(k as int));
        }
        proof {
            reveal_strlit("/");
            assert(sc@.take(sc@.len() as int) =~= sc@);
            assert(slash_s@ =~= "/"@ + sv[i as int]);
        }
        let eq = str_eq(norm_str_helper(norm).as_str(), r.sources[i].as_str());
        if eq || chars_end_with(norm.as_slice(), slash_s.as_slice()) {
            assert(norm@ == sv[i as int] || ends_with(norm@, "/"@ + sv[i as int]));
            return true;
        }
        i = i + 1;
    }
    false
}

fn norm_str_helper(v: &Vec<char>) -> (s: String)
    ensures
        s@ == v@,
{
    string_from_chars(v.as_slice())
}

/// The rows affected by the changed files, file by file: those still to
/// review (status other than `todo`) and those not yet implemented
/// (status `todo`).
pub fn cross_reference(files: &Vec<String>, rows: &Vec<ParityRow>) -> (r: (
    Vec<ParityRow>,
    Vec<ParityRow>,
))
    ensures
        rows_view(r.0@) == drift_rows(strings_view(files@), rows_view(rows@), true),
        rows_view(r.1@) == drift_rows(strings_view(files@), rows_view(rows@), false),
{
    let prefix = chars_vec("yfinance/");
    let todo = chars_vec("todo");
    let ghost rv = rows_view(rows@);
    let ghost fv = strings_view(files@);
    let mut review: Vec<ParityRow> = Vec::new();
    let mut todos: Vec<ParityRow> = Vec::new();
    let mut f: usize = 0;
    while f < files.len()
        invariant
            f <= files@.len(),
            prefix@ == "yfinance/"@,
            todo@ == "todo"@,
            rv == rows_view(rows@),
            fv == strings_view(files@),
            rows_view(review@) == drift_rows(fv.take(f as int), rv, true),
            rows_view(todos@) == drift_rows(fv.take(f as int), rv, false),
        decreases files@.len() - f,
    {
        let fc = chars_vec(files[f].as_str());
        let norm = trim_prefix_all_chars(fc.as_slice(), prefix.as_slice());
        let ghost base_r = rows_view(review@);
        let ghost base_t = rows_view(todos@);
        let mut k: usize = 0;
        while k < rows.len()
            invariant
                k <= rows@.len(),
                prefix@ == "yfinance/"@,
                todo@ == "todo"@,
                rv == rows_view(rows@),
                rows_view(review@) == base_r + hits(norm@, rv.take(k as int), true),
                rows_view(todos@) == base_t + hits(norm@, rv.take(k as int), false),
            decreases rows@.len() - k,
        {
            assert(rv.take(k + 1).drop_last() =~= rv.take(k as int));
            assert(rv.take(k + 1).last() == row_view(rows@[k as int]));
            if row_hit(&norm, &rows[k]) {
                let st = chars_vec(rows[k].status.as_str());
                let is_todo = st.len() == todo.len() && chars_start_with(
                    st.as_slice(),
                    todo.as_slice(),
                );
                assert(is_todo == (rows@[k as int].status@ == "todo"@)) by {
                    if st@.len() == todo@.len() {
                        assert(st@.take(todo@.len() as int) =~= st@);
                    }
                }
                let c = clone_row(&rows[k]);
                if !is_todo {
                    let ghost prev = rows_view(review@);
                    review.push(c);
                    assert(rows_view(review@) =~= prev.push(row_view(c)));
                } else {
                    let ghost prev = rows_view(todos@);
                    todos.push(c);
                    assert(rows_view(todos@) =~= prev.push(row_view(c)));
                }
            }
            k = k + 1;
        }
        assert(rv.take(rows@.len() as int) =~= rv);
        assert(fv.take(f + 1).drop_last() =~= fv.take(f as int));
        assert(fv.take(f + 1).last() == files@[f as int]@);
        f = f + 1;
    }
    assert(fv.take(files@.len() as int) =~= fv);
    (review, todos)
}

} // verus!
