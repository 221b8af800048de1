//! Per-file pickup: collects candidate timestamps from the metadata text,
//! the filesystem attribute times and the file name, resolves the earliest
//! credible one, and fixes the destination suffix.
use vstd::prelude::*;

use crate::config::{capture_trim, capture_trim_of};
use crate::datetime::{
    civil_utc_of, fdt_of_tuple, fdt_opt_tuple, fdt_tuple, timestamp_to_utc, FdtTuple, FileDateTime,
};
use crate::filemeta::FileMeta;
use crate::parse::{fuzzy_strptime, fuzzy_strptime_spec, replacement_strings, strptimes_datetime_spec, try_replacements_spec};
use crate::pathname::{base_name, base_name_spec, extension_spec, split_stem_extension};
use crate::resolver::{resolution, resolve_earliest};
use crate::settings::{fmts_of_strptimes, Parser, Stripe, Strptime};
use crate::text::{
    all_ascii, contains_any, contains_str, lower_of, lowercase, opt_str_view, replace_non_ascii,
    str_all_ascii, str_contains, str_contains_any, str_eq, str_in_list, str_list_contains,
    str_views,
};
use crate::PlaceError;

verus! {

/// One file being picked up, with its position in the run.
#[derive(Debug, Clone)]
pub struct PickFile {
    pub fi: FileMeta,
    pub index: u32,
    pub total: u32,
}

/// The candidate one metadata line yields under the stripes: the first
/// stripe whose name occurs in the line captures a date string, which the
/// stripe's formats parse. A capture or parse failure yields nothing; it is
/// not an error.
pub open spec fn date_from_string_spec(value: Seq<char>, stripes: Seq<Stripe>) -> Option<FdtTuple>
    decreases stripes.len(),
{
    if stripes.len() == 0 {
        None
    } else if !contains_str(value, stripes[0].name@) {
        date_from_string_spec(value, stripes.drop_first())
    } else {
        match capture_trim_of(stripes[0].regex@, value, 1) {
            Some(ds) => strptimes_datetime_spec(ds, fmts_of_strptimes(stripes[0].strptimes@)),
            None => None,
        }
    }
}

/// The type-correction a metadata line yields.
pub open spec fn type_capture_spec(line: Seq<char>) -> Option<Seq<char>> {
    if contains_str(line, "Expected File Name Extension"@) {
        capture_trim_of("Expected File Name Extension = (.*)"@, line, 1)
    } else {
        None
    }
}

/// The candidate one line contributes: nothing when the line is
/// blacklisted, fails to yield a date, or is dated before 1975 — an
/// almost-certainly-wrong artifact of missing metadata.
pub open spec fn line_candidate(
    line: Seq<char>,
    stripes: Seq<Stripe>,
    blacklist: Seq<Seq<char>>,
) -> Option<FileDateTime> {
    if contains_any(line, blacklist) {
        None
    } else {
        match date_from_string_spec(line, stripes) {
            Some(t) => if t.0 >= 1975 {
                Some(fdt_of_tuple(t))
            } else {
                None
            },
            None => None,
        }
    }
}

/// The candidates the metadata lines contribute, in line order.
pub open spec fn metadata_candidates(
    texts: Seq<Seq<char>>,
    stripes: Seq<Stripe>,
    blacklist: Seq<Seq<char>>,
) -> Seq<FileDateTime>
    decreases texts.len(),
{
    if texts.len() == 0 {
        Seq::empty()
    } else {
        let rest = metadata_candidates(texts.drop_last(), stripes, blacklist);
        match line_candidate(texts.last(), stripes, blacklist) {
            Some(f) => rest.push(f),
            None => rest,
        }
    }
}

/// The suffix after the metadata lines are read: while it is empty, the
/// first type-correction of a non-blacklisted line fills it, lowercased.
pub open spec fn suffix_after(
    texts: Seq<Seq<char>>,
    blacklist: Seq<Seq<char>>,
    initial: Seq<char>,
) -> Seq<char>
    decreases texts.len(),
{
    if texts.len() == 0 {
        initial
    } else {
        let next = if initial.len() == 0 && !contains_any(texts[0], blacklist) {
            match type_capture_spec(texts[0]) {
                Some(t) => lower_of(t),
                None => initial,
            }
        } else {
            initial
        };
        suffix_after(texts.drop_first(), blacklist, next)
    }
}

/// Pre-1975 rejection: every candidate the metadata lines contribute is
/// dated 1975 or later; an earlier date is an almost-certainly-wrong
/// artifact of missing metadata and is discarded, so resolution falls
/// through to the remaining sources.
pub proof fn lemma_pre_1975_rejected(
    texts: Seq<Seq<char>>,
    stripes: Seq<Stripe>,
    blacklist: Seq<Seq<char>>,
)
    ensures
        forall|i: int|
            0 <= i < metadata_candidates(texts, stripes, blacklist).len() ==> (
            #[trigger] metadata_candidates(texts, stripes, blacklist)[i]).year >= 1975,
    decreases texts.len(),
{
    if texts.len() > 0 {
        lemma_pre_1975_rejected(texts.drop_last(), stripes, blacklist);
        let rest = metadata_candidates(texts.drop_last(), stripes, blacklist);
        let cur = metadata_candidates(texts, stripes, blacklist);
        assert forall|i: int| 0 <= i < cur.len() implies cur[i].year >= 1975 by {
            let lc = line_candidate(texts.last(), stripes, blacklist);
            if lc is Some {
                if i < rest.len() {
                    assert(cur[i] == rest[i]);
                } else {
                    assert(cur[i] == lc->0);
                }
            } else {
                assert(cur[i] == rest[i]);
            }
        }
    }
}

/// The minimum of the attribute times; a missing creation time falls back
/// to the modification time.
pub open spec fn attr_min(atime: i64, mtime: i64, ctime: Option<i64>) -> i64 {
    let c = match ctime {
        Some(c) => c,
        None => mtime,
    };
    if atime <= mtime && atime <= c {
        atime
    } else if mtime <= c {
        mtime
    } else {
        c
    }
}

/// The candidate the file name yields under one stripe.
pub open spec fn filename_candidate(path: Seq<char>, stripe: Stripe) -> Option<FdtTuple> {
    match capture_trim_of(stripe.regex@, base_name_spec(path), 1) {
        Some(s) => strptimes_datetime_spec(s, fmts_of_strptimes(stripe.strptimes@)),
        None => None,
    }
}

/// The candidate of the first additional source named "filename".
pub open spec fn additional_candidate(path: Seq<char>, adds: Seq<Stripe>) -> Option<FdtTuple>
    decreases adds.len(),
{
    if adds.len() == 0 {
        None
    } else if adds[0].name@ == "filename"@ {
        filename_candidate(path, adds[0])
    } else {
        additional_candidate(path, adds.drop_first())
    }
}

/// All candidates of a pickup, in the order they are merged: the metadata
/// lines' candidates, then the attribute candidate, then the filename one.
pub open spec fn create_pool(
    path: Seq<char>,
    texts: Seq<Seq<char>>,
    config: Parser,
    atime: i64,
    mtime: i64,
    ctime: Option<i64>,
) -> Seq<FileDateTime> {
    let md = metadata_candidates(texts, config.stripes@, str_views(config.blacklist@));
    let with_attr = match civil_utc_of(attr_min(atime, mtime, ctime)) {
        Some(t) => md.push(fdt_of_tuple(t)),
        None => md,
    };
    if config.additionals@.len() > 0 {
        match additional_candidate(path, config.additionals@) {
            Some(t) => with_attr.push(fdt_of_tuple(t)),
            None => with_attr,
        }
    } else {
        with_attr
    }
}

/// The extension the path itself offers for the suffix, lowercased; empty
/// when the base name has none.
pub open spec fn path_ext(path: Seq<char>) -> Seq<char> {
    match extension_spec(base_name_spec(path)) {
        Some(e) => lower_of(e),
        None => Seq::empty(),
    }
}

/// The suffix after pickup: a retained extension always wins; otherwise the
/// extension only fills an empty suffix.
pub open spec fn suffix_final(md_suffix: Seq<char>, ext: Seq<char>, retain: Seq<String>) -> Seq<
    char,
> {
    if str_in_list(retain, ext) {
        ext
    } else if md_suffix.len() == 0 {
        ext
    } else {
        md_suffix
    }
}

impl PickFile {
    pub fn new(file_path: &str, index: u32, total: u32) -> (r: Self)
        ensures
            r.fi.file_path@ == file_path@,
            r.fi.suffix@ == Seq::<char>::empty(),
            r.index == index,
            r.total == total,
    {
        PickFile { fi: FileMeta::new(file_path), index, total }
    }

    /// Captures a regex group from the text and trims it.
    pub fn regex_text_value(&self, text: &str, restr: &str, index: usize) -> (r: Option<String>)
        ensures
            opt_str_view(r) == capture_trim_of(restr@, text@, index as int),
    {
        capture_trim(restr, text, index)
    }

    /// Parses a date string against the format list, retrying a non-ASCII
    /// value under each separator substitution.
    pub fn date_from_strptimes(&self, date_str: &str, strptimes: &Vec<Strptime>) -> (r: Option<
        FileDateTime,
    >)
        ensures
            fdt_opt_tuple(r) == strptimes_datetime_spec(
                date_str@,
                fmts_of_strptimes(strptimes@),
            ),
    {
        let ghost fmts = fmts_of_strptimes(strptimes@);
        let value_is_ascii = str_all_ascii(date_str);
        let mut repls: Vec<&str> = Vec::new();
        repls.push(" ");
        repls.push("-");
        repls.push(":");
        repls.push("1");
        repls.push("");
        assert(repls@[0]@ == replacement_strings()[0]);
        assert(repls@[1]@ == replacement_strings()[1]);
        assert(repls@[2]@ == replacement_strings()[2]);
        assert(repls@[3]@ == replacement_strings()[3]);
        assert(repls@[4]@ == replacement_strings()[4]);
        assert(fmts.skip(0) =~= fmts);
        let mut i: usize = 0;
        while i < strptimes.len()
            invariant
                i <= strptimes@.len(),
                fmts == fmts_of_strptimes(strptimes@),
                fmts.len() == strptimes@.len(),
                value_is_ascii == all_ascii(date_str@),
                repls@.len() == 5,
                forall|k: int| 0 <= k < 5 ==> repls@[k]@ == #[trigger] replacement_strings()[k],
                strptimes_datetime_spec(date_str@, fmts) == strptimes_datetime_spec(
                    date_str@,
                    fmts.skip(i as int),
                ),
            decreases strptimes@.len() - i,
        {
            proof {
                assert(fmts.skip(i as int)[0] == fmts[i as int]);
                assert(fmts[i as int] == strptimes@[i as int].fmt@);
                assert(fmts.skip(i as int).drop_first() =~= fmts.skip(i as int + 1));
            }
            let fmt = strptimes[i].fmt.as_str();
            if !value_is_ascii {
                assert(replacement_strings().skip(0) =~= replacement_strings());
                let mut j: usize = 0;
                while j < repls.len()
                    invariant
                        j <= 5,
                        repls@.len() == 5,
                        i < strptimes@.len(),
                        fmts == fmts_of_strptimes(strptimes@),
                        fmts.len() == strptimes@.len(),
                        !all_ascii(date_str@),
                        fmt@ == fmts[i as int],
                        fmts.skip(i as int)[0] == fmts[i as int],
                        strptimes_datetime_spec(date_str@, fmts) == strptimes_datetime_spec(
                            date_str@,
                            fmts.skip(i as int),
                        ),
                        forall|k: int|
                            0 <= k < 5 ==> repls@[k]@ == #[trigger] replacement_strings()[k],
                        try_replacements_spec(date_str@, fmt@, replacement_strings())
                            == try_replacements_spec(
                            date_str@,
                            fmt@,
                            replacement_strings().skip(j as int),
                        ),
                    decreases 5 - j,
                {
                    proof {
                        assert(replacement_strings().skip(j as int)[0] == replacement_strings()[
                            j as int
                        ]);
                        assert(replacement_strings().skip(j as int).drop_first()
                            =~= replacement_strings().skip(j as int + 1));
                    }
                    let replaced = replace_non_ascii(date_str, repls[j]);
                    let r = fuzzy_strptime(replaced.as_str(), fmt);
                    if r.is_some() {
                        return r;
                    }
                    j = j + 1;
                }
            } else {
                let r = fuzzy_strptime(date_str, fmt);
                if r.is_some() {
                    return r;
                }
            }
            i = i + 1;
        }
        None
    }

    /// Extracts the candidate of one metadata line under the stripes.
    pub fn date_from_string(&self, value: &str, stripes: &Vec<Stripe>) -> (r: Option<FileDateTime>)
        ensures
            fdt_opt_tuple(r) == date_from_string_spec(value@, stripes@),
    {
        assert(stripes@.skip(0) =~= stripes@);
        let mut i: usize = 0;
        while i < stripes.len()
            invariant
                i <= stripes@.len(),
                date_from_string_spec(value@, stripes@) == date_from_string_spec(
                    value@,
                    stripes@.skip(i as int),
                ),
            decreases stripes@.len() - i,
        {
            proof {
                assert(stripes@.skip(i as int)[0] == stripes@[i as int]);
                assert(stripes@.skip(i as int).drop_first() =~= stripes@.skip(i as int + 1));
            }
            let stripe = &stripes[i];
            if str_contains(value, stripe.name.as_str()) {
                let captured = self.regex_text_value(value, stripe.regex.as_str(), 1);
                match captured {
                    Some(ds) => {
                        let r = self.date_from_strptimes(ds.as_str(), &stripe.strptimes);
                        return r;
                    },
                    None => {
                        return None;
                    },
                }
            }
            i = i + 1;
        }
        None
    }

    /// Extracts the type-correction a metadata line offers.
    pub fn type_from_metadata(&self, text: &str) -> (r: Option<String>)
        ensures
            opt_str_view(r) == type_capture_spec(text@),
    {
        if str_contains(text, "Expected File Name Extension") {
            self.regex_text_value(text, "Expected File Name Extension = (.*)", 1)
        } else {
            None
        }
    }

    /// Walks the metadata lines: collects each line's candidate and, while
    /// the suffix is empty, takes the first type-correction.
    fn collect_metadata(&mut self, texts: &Vec<String>, config: &Parser) -> (cands: Vec<
        FileDateTime,
    >)
        ensures
            cands@ == metadata_candidates(
                str_views(texts@),
                config.stripes@,
                str_views(config.blacklist@),
            ),
            final(self).fi.suffix@ == suffix_after(
                str_views(texts@),
                str_views(config.blacklist@),
                old(self).fi.suffix@,
            ),
            final(self).fi.file_path == old(self).fi.file_path,
            final(self).fi.datetime == old(self).fi.datetime,
            final(self).index == old(self).index,
            final(self).total == old(self).total,
    {
        let ghost tv = str_views(texts@);
        let ghost bl = str_views(config.blacklist@);
        let ghost suffix0 = self.fi.suffix@;
        let mut cands: Vec<FileDateTime> = Vec::new();
        assert(tv.skip(0) =~= tv);
        let mut i: usize = 0;
        while i < texts.len()
            invariant
                i <= texts@.len(),
                tv == str_views(texts@),
                bl == str_views(config.blacklist@),
                tv.len() == texts@.len(),
                cands@ == metadata_candidates(tv.take(i as int), config.stripes@, bl),
                suffix_after(tv, bl, suffix0) == suffix_after(
                    tv.skip(i as int),
                    bl,
                    self.fi.suffix@,
                ),
                self.fi.file_path == old(self).fi.file_path,
                self.fi.datetime == old(self).fi.datetime,
                self.index == old(self).index,
                self.total == old(self).total,
                suffix0 == old(self).fi.suffix@,
            decreases texts@.len() - i,
        {
            proof {
                assert(tv[i as int] == texts@[i as int]@);
                assert(tv.take(i as int + 1).drop_last() =~= tv.take(i as int));
                assert(tv.take(i as int + 1).last() == tv[i as int]);
                assert(tv.skip(i as int)[0] == tv[i as int]);
                assert(tv.skip(i as int).drop_first() =~= tv.skip(i as int + 1));
            }
            let line = texts[i].as_str();
            if !str_contains_any(line, &config.blacklist) {
                if self.fi.suffix.as_str().is_empty() {
                    let t = self.type_from_metadata(line);
                    match t {
                        Some(file_type) => {
                            let lowered = lowercase(file_type.as_str());
                            self.fi.suffix = lowered;
                        },
                        None => {},
                    }
                }
                let parsed = self.date_from_string(line, &config.stripes);
                match parsed {
                    Some(dt) => {
                        if dt.get_year() >= 1975 {
                            proof {
                                assert(fdt_of_tuple(fdt_tuple(dt)) == dt);
                            }
                            cands.push(dt);
                        }
                    },
                    None => {},
                }
            }
            i = i + 1;
        }
        assert(tv.take(tv.len() as int) =~= tv);
        assert(tv.skip(tv.len() as int) =~= Seq::<Seq<char>>::empty());
        cands
    }

    /// Resolves the earliest credible candidate of the metadata lines alone,
    /// filling the suffix from the first type-correction on the way.
    pub fn date_from_metedata(&mut self, texts: &Vec<String>, config: &Parser) -> (r: Option<
        FileDateTime,
    >)
        ensures
            r == resolution(
                metadata_candidates(
                    str_views(texts@),
                    config.stripes@,
                    str_views(config.blacklist@),
                ),
            ),
            final(self).fi.suffix@ == suffix_after(
                str_views(texts@),
                str_views(config.blacklist@),
                old(self).fi.suffix@,
            ),
            final(self).fi.file_path == old(self).fi.file_path,
            final(self).fi.datetime == old(self).fi.datetime,
            final(self).index == old(self).index,
            final(self).total == old(self).total,
    {
        let cands = self.collect_metadata(texts, config);
        resolve_earliest(&cands)
    }

    /// The attribute-time candidate: the minimum of access, modification
    /// and creation time, in civil UTC fields.
    pub fn earliest_from_attributes(&self, atime: i64, mtime: i64, ctime: Option<i64>) -> (r:
        Option<FileDateTime>)
        ensures
            fdt_opt_tuple(r) == civil_utc_of(attr_min(atime, mtime, ctime)),
    {
        let c = match ctime {
            Some(c) => c,
            None => mtime,
        };
        let min = if atime <= mtime && atime <= c {
            atime
        } else if mtime <= c {
            mtime
        } else {
            c
        };
        timestamp_to_utc(min)
    }

    /// The candidate the file name yields under one stripe.
    pub fn date_from_filename(&self, stripe: &Stripe) -> (r: Option<FileDateTime>)
        ensures
            fdt_opt_tuple(r) == filename_candidate(self.fi.file_path@, *stripe),
    {
        let name = base_name(self.fi.file_path.as_str());
        let captured = self.regex_text_value(name.as_str(), stripe.regex.as_str(), 1);
        match captured {
            Some(ds) => self.date_from_strptimes(ds.as_str(), &stripe.strptimes),
            None => None,
        }
    }

    /// The candidate of the first additional source named "filename".
    pub fn date_from_additional(&self, additional: &Vec<Stripe>) -> (r: Option<FileDateTime>)
        ensures
            fdt_opt_tuple(r) == additional_candidate(self.fi.file_path@, additional@),
    {
        assert(additional@.skip(0) =~= additional@);
        let mut i: usize = 0;
        while i < additional.len()
            invariant
                i <= additional@.len(),
                additional_candidate(self.fi.file_path@, additional@) == additional_candidate(
                    self.fi.file_path@,
                    additional@.skip(i as int),
                ),
            decreases additional@.len() - i,
        {
            proof {
                assert(additional@.skip(i as int)[0] == additional@[i as int]);
                assert(additional@.skip(i as int).drop_first() =~= additional@.skip(i as int + 1));
            }
            let stripe = &additional[i];
            if str_eq(stripe.name.as_str(), "filename") {
                let r = self.date_from_filename(stripe);
                return r;
            }
            i = i + 1;
        }
        None
    }

    /// Picks the file up: merges the candidates of all three sources,
    /// resolves the earliest credible one, and settles the suffix. Fails
    /// exactly when no source yields a candidate.
    pub fn create(
        self,
        config: &Parser,
        texts: &Vec<String>,
        atime: i64,
        mtime: i64,
        ctime: Option<i64>,
    ) -> (r: Result<PickFile, PlaceError>)
        ensures
            ({
                let pool = create_pool(
                    self.fi.file_path@,
                    str_views(texts@),
                    *config,
                    atime,
                    mtime,
                    ctime,
                );
                let md_suffix = suffix_after(
                    str_views(texts@),
                    str_views(config.blacklist@),
                    self.fi.suffix@,
                );
                &&& r is Err <==> pool.len() == 0
                &&& r is Err ==> r == Result::<PickFile, PlaceError>::Err(
                    PlaceError::NoTimestampFound,
                )
                &&& r matches Ok(pf) ==> {
                    &&& Some(pf.fi.datetime) == resolution(pool)
                    &&& pf.fi.suffix@ == suffix_final(
                        md_suffix,
                        path_ext(self.fi.file_path@),
                        config.retain_suffix@,
                    )
                    &&& pf.fi.file_path == self.fi.file_path
                    &&& pf.index == self.index
                    &&& pf.total == self.total
                }
            }),
    {
        let mut this = self;
        let mut cands = this.collect_metadata(texts, config);
        let attr = this.earliest_from_attributes(atime, mtime, ctime);
        match attr {
            Some(f) => {
                proof {
                    assert(fdt_of_tuple(fdt_tuple(f)) == f);
                }
                cands.push(f);
            },
            None => {},
        }
        if config.additionals.len() > 0 {
            let add = this.date_from_additional(&config.additionals);
            match add {
                Some(f) => {
                    proof {
                        assert(fdt_of_tuple(fdt_tuple(f)) == f);
                    }
                    cands.push(f);
                },
                None => {},
            }
        }
        let resolved = resolve_earliest(&cands);

        let name = base_name(this.fi.file_path.as_str());
        let stem_ext = split_stem_extension(name.as_str());
        let ext = match stem_ext.1 {
            Some(e) => lowercase(e.as_str()),
            None => String::new(),
        };
        if str_list_contains(&config.retain_suffix, ext.as_str()) {
            this.fi.suffix = ext;
        } else if this.fi.suffix.as_str().is_empty() {
            this.fi.suffix = ext;
        }

        match resolved {
            Some(dt) => {
                this.fi.set_datetime(dt);
                Ok(this)
            },
            None => Err(PlaceError::NoTimestampFound),
        }
    }
}

} // verus!
