//! The placement target: one source file with its content hash, its name
//! parts, the collected candidate times, and the destination it is assigned
//! in the year/month tree, renamed on collision.
use vstd::prelude::*;

use crate::datetime::{civil_utc_of, fdt_of_tuple, FileDateTime};
use crate::numfmt::{dec_str, dec_str_pad, u64_digits, u64_digits_pad};
use crate::pathname::{base_name, base_name_spec, extension_spec, split_stem_extension, stem_spec};
use crate::resolver::{resolution, resolve_earliest};
use crate::text::{
    append_chars, chars_to_string, lower_of, lowercase, str_chars, str_in_list, str_list_contains,
    str_views,
};
use crate::PlaceError;

verus! {

/// The candidate times of a target: instants parsed from the metadata text,
/// the attribute times as read (access, modification, creation where the
/// platform has it), and the resolved earliest instant.
#[derive(Debug, Clone)]
pub struct TimeInfo {
    pub parsedtimes: Vec<FileDateTime>,
    pub attrtimes: Vec<Option<i64>>,
    pub earliest: Option<FileDateTime>,
}

/// One file moving through the placement pipeline.
#[derive(Debug, Clone)]
pub struct Target {
    pub path: String,
    pub parts: Option<Vec<String>>,
    pub hash: String,
    pub extension: String,
    pub name: String,
    pub ftype: Option<String>,
    pub tinfo: TimeInfo,
    pub dealt: bool,
    pub output: String,
}

/// A destination path: the root with each part appended behind a separator.
pub open spec fn join_parts(dir: Seq<char>, parts: Seq<Seq<char>>) -> Seq<char>
    decreases parts.len(),
{
    if parts.len() == 0 {
        dir
    } else {
        join_parts(dir, parts.drop_last()) + seq!['/'] + parts.last()
    }
}

/// Joins the root and the path parts with separators.
pub fn output_gen(dir: &str, parts: &Vec<String>) -> (r: String)
    ensures
        r@ == join_parts(dir@, str_views(parts@)),
{
    let ghost pv = str_views(parts@);
    let mut v = str_chars(dir);
    assert(pv.take(0) =~= Seq::<Seq<char>>::empty());
    let mut i: usize = 0;
    while i < parts.len()
        invariant
            i <= parts@.len(),
            pv == str_views(parts@),
            pv.len() == parts@.len(),
            v@ == join_parts(dir@, pv.take(i as int)),
        decreases parts@.len() - i,
    {
        proof {
            assert(pv[i as int] == parts@[i as int]@);
            assert(pv.take(i as int + 1).drop_last() =~= pv.take(i as int));
            assert(pv.take(i as int + 1).last() == pv[i as int]);
        }
        v.push('/');
        let part = str_chars(parts[i].as_str());
        append_chars(&mut v, &part);
        assert(v@ =~= join_parts(dir@, pv.take(i as int)) + seq!['/'] + pv[i as int]);
        i = i + 1;
    }
    assert(pv.take(pv.len() as int) =~= pv);
    chars_to_string(&v)
}

/// The extension a path gives its target, lowercased; a name without one
/// falls back to "bin".
pub open spec fn ext_of_path(path: Seq<char>) -> Seq<char> {
    match extension_spec(base_name_spec(path)) {
        Some(e) => lower_of(e),
        None => "bin"@,
    }
}

/// The stem a path gives its target, lowercased; an empty stem falls back
/// to "NoName".
pub open spec fn name_of_path(path: Seq<char>) -> Seq<char> {
    if stem_spec(base_name_spec(path)).len() == 0 {
        "NoName"@
    } else {
        lower_of(stem_spec(base_name_spec(path)))
    }
}

/// The minimum of the attribute times that are present.
pub open spec fn opt_min_ts(times: Seq<Option<i64>>) -> Option<i64>
    decreases times.len(),
{
    if times.len() == 0 {
        None
    } else {
        let rest = opt_min_ts(times.drop_last());
        match times.last() {
            Some(t) => match rest {
                Some(m) => if t < m {
                    Some(t)
                } else {
                    Some(m)
                },
                None => Some(t),
            },
            None => rest,
        }
    }
}

/// The pool the earliest instant is resolved from: the parsed instants,
/// and the minimum attribute time where chrono can represent it.
pub open spec fn pool_of(parsed: Seq<FileDateTime>, attrtimes: Seq<Option<i64>>) -> Seq<
    FileDateTime,
> {
    match opt_min_ts(attrtimes) {
        Some(m) => match civil_utc_of(m) {
            Some(t) => parsed.push(fdt_of_tuple(t)),
            None => parsed,
        },
        None => parsed,
    }
}

/// The file name a renamed target carries: its resolved date.
pub open spec fn ymd_name(e: FileDateTime) -> Seq<char> {
    dec_str(e.year as nat) + seq!['-'] + dec_str_pad(e.month as nat, 2) + seq!['-'] + dec_str_pad(
        e.day as nat,
        2,
    )
}

impl Target {
    /// A fresh target for the path: the content hash and attribute times
    /// are handed in by the caller, the name and extension come from the
    /// path itself.
    pub fn new(path: &str, hash: &str, atime: i64, mtime: i64, ctime: Option<i64>) -> (r: Target)
        ensures
            r.path@ == path@,
            r.hash@ == hash@,
            r.extension@ == ext_of_path(path@),
            r.name@ == name_of_path(path@),
            r.parts is None,
            r.ftype is None,
            r.dealt == false,
            r.tinfo.parsedtimes@.len() == 0,
            r.tinfo.attrtimes@ == seq![Some(atime), Some(mtime), ctime],
            r.tinfo.earliest is None,
            r.output@ == Seq::<char>::empty(),
    {
        let bn = base_name(path);
        let stem_ext = split_stem_extension(bn.as_str());
        let extension = match stem_ext.1 {
            Some(e) => lowercase(e.as_str()),
            None => "bin".to_owned(),
        };
        let name = if stem_ext.0.as_str().is_empty() {
            "NoName".to_owned()
        } else {
            lowercase(stem_ext.0.as_str())
        };
        let mut attrtimes: Vec<Option<i64>> = Vec::new();
        attrtimes.push(Some(atime));
        attrtimes.push(Some(mtime));
        attrtimes.push(ctime);
        assert(attrtimes@ =~= seq![Some(atime), Some(mtime), ctime]);
        Target {
            path: path.to_owned(),
            parts: None,
            hash: hash.to_owned(),
            extension,
            name,
            ftype: None,
            tinfo: TimeInfo { parsedtimes: Vec::new(), attrtimes, earliest: None },
            dealt: false,
            output: String::new(),
        }
    }

    pub fn set_parts(&mut self, parts: Option<Vec<String>>)
        ensures
            final(self).parts == parts,
            *final(self) == (Target { parts, ..*old(self) }),
    {
        self.parts = parts;
    }

    pub fn get_parts(&self) -> (r: Result<&Vec<String>, PlaceError>)
        ensures
            match self.parts {
                Some(p) => r matches Ok(q) && *q == p,
                None => r == Err::<&Vec<String>, PlaceError>(PlaceError::PartsNotSet),
            },
    {
        match &self.parts {
            Some(p) => Ok(p),
            None => Err(PlaceError::PartsNotSet),
        }
    }

    pub fn get_attrtime(&self) -> (r: &Vec<Option<i64>>)
        ensures
            r == self.tinfo.attrtimes,
    {
        &self.tinfo.attrtimes
    }

    pub fn add_parsedtime(&mut self, dt: FileDateTime)
        ensures
            final(self).tinfo.parsedtimes@ == old(self).tinfo.parsedtimes@.push(dt),
            final(self).tinfo.attrtimes == old(self).tinfo.attrtimes,
            final(self).tinfo.earliest == old(self).tinfo.earliest,
            final(self).path == old(self).path,
            final(self).parts == old(self).parts,
            final(self).hash == old(self).hash,
            final(self).extension == old(self).extension,
            final(self).name == old(self).name,
            final(self).ftype == old(self).ftype,
            final(self).dealt == old(self).dealt,
            final(self).output == old(self).output,
    {
        self.tinfo.parsedtimes.push(dt);
    }

    pub fn get_parsedtime(&self) -> (r: &Vec<FileDateTime>)
        ensures
            r == self.tinfo.parsedtimes,
    {
        &self.tinfo.parsedtimes
    }

    /// The destination file name: the stem (or the rename), a two-digit
    /// collision index from the second copy on, and the corrected type if
    /// one was found, else the original extension.
    pub open spec fn spec_get_name(self, i: int, rename: Option<Seq<char>>) -> Seq<char> {
        let nm = match rename {
            Some(n) => n,
            None => self.name@,
        };
        let sfx = match self.ftype {
            Some(t) => t@,
            None => self.extension@,
        };
        if i == 0 {
            nm + seq!['.'] + sfx
        } else {
            nm + seq!['_'] + dec_str_pad(i as nat, 2) + seq!['.'] + sfx
        }
    }

    pub fn get_name(&self, i: usize, rename: Option<&str>) -> (r: String)
        ensures
            r@ == self.spec_get_name(
                i as int,
                match rename {
                    Some(n) => Some(n@),
                    None => None::<Seq<char>>,
                },
            ),
    {
        let mut v: Vec<char> = match rename {
            Some(n) => str_chars(n),
            None => str_chars(self.name.as_str()),
        };
        if i > 0 {
            v.push('_');
            let idx = u64_digits_pad(i as u64, 2);
            append_chars(&mut v, &idx);
        }
        v.push('.');
        let sfx = match &self.ftype {
            Some(t) => str_chars(t.as_str()),
            None => str_chars(self.extension.as_str()),
        };
        append_chars(&mut v, &sfx);
        assert(v@ =~= self.spec_get_name(
            i as int,
            match rename {
                Some(n) => Some(n@),
                None => None::<Seq<char>>,
            },
        ));
        chars_to_string(&v)
    }

    /// The candidate pool the earliest instant is resolved from when no
    /// historical instant overrides it: every parsed instant, and the
    /// minimum attribute time where chrono can represent it.
    pub open spec fn update_pool(self) -> Seq<FileDateTime> {
        pool_of(self.tinfo.parsedtimes@, self.tinfo.attrtimes@)
    }

    /// Resolves the earliest instant: a historical timestamp is adopted as
    /// is; otherwise the parsed and attribute candidates are merged and the
    /// resolver picks the earliest credible one. Fails when no candidate at
    /// all is available.
    pub fn set_earliest(&mut self, timestamp: Option<u64>) -> (r: Result<(), PlaceError>)
        requires
            old(self).dealt ==> old(self).parts is Some,
            timestamp matches Some(t) ==> t <= i64::MAX as u64,
        ensures
            *final(self) == (Target { tinfo: final(self).tinfo, ..*old(self) }),
            final(self).tinfo == (TimeInfo { earliest: final(self).tinfo.earliest, ..old(self).tinfo }),
            match timestamp {
                Some(ts) => match civil_utc_of(ts as i64) {
                    Some(t) => r is Ok && final(self).tinfo.earliest == Some(fdt_of_tuple(t)),
                    None => r == Err::<(), PlaceError>(PlaceError::NoTimestampFound)
                        && final(self).tinfo.earliest == old(self).tinfo.earliest,
                },
                None => {
                    let pool = old(self).update_pool();
                    &&& r is Ok <==> pool.len() > 0
                    &&& r is Ok ==> final(self).tinfo.earliest == resolution(pool)
                    &&& !(r is Ok) ==> r == Err::<(), PlaceError>(PlaceError::NoTimestampFound)
                        && final(self).tinfo.earliest == old(self).tinfo.earliest
                },
            },
    {
        match timestamp {
            Some(ts) => {
                let converted = crate::datetime::timestamp_to_utc(ts as i64);
                match converted {
                    Some(dt) => {
                        self.tinfo.earliest = Some(dt);
                        Ok(())
                    },
                    None => Err(PlaceError::NoTimestampFound),
                }
            },
            None => self.update_earliest(),
        }
    }

    /// Merges the parsed instants with the minimum attribute time and lets
    /// the resolver pick the earliest credible one.
    fn update_earliest(&mut self) -> (r: Result<(), PlaceError>)
        ensures
            *final(self) == (Target { tinfo: final(self).tinfo, ..*old(self) }),
            final(self).tinfo == (TimeInfo { earliest: final(self).tinfo.earliest, ..old(self).tinfo }),
            ({
                let pool = old(self).update_pool();
                &&& r is Ok <==> pool.len() > 0
                &&& r is Ok ==> final(self).tinfo.earliest == resolution(pool)
                &&& !(r is Ok) ==> r == Err::<(), PlaceError>(PlaceError::NoTimestampFound)
                    && final(self).tinfo.earliest == old(self).tinfo.earliest
            }),
    {
        let mut pool = self.tinfo.parsedtimes.clone();
        proof {
            assert(pool@ =~= self.tinfo.parsedtimes@);
        }
        let attr_min = self.min_attrtime();
        match attr_min {
            Some(m) => {
                let converted = crate::datetime::timestamp_to_utc(m);
                match converted {
                    Some(dt) => {
                        proof {
                            assert(crate::datetime::fdt_of_tuple(crate::datetime::fdt_tuple(dt))
                                == dt);
                        }
                        pool.push(dt);
                    },
                    None => {},
                }
            },
            None => {},
        }
        let resolved = resolve_earliest(&pool);
        match resolved {
            Some(dt) => {
                self.tinfo.earliest = Some(dt);
                Ok(())
            },
            None => Err(PlaceError::NoTimestampFound),
        }
    }

    /// The minimum of the attribute times that are present.
    fn min_attrtime(&self) -> (r: Option<i64>)
        ensures
            r == opt_min_ts(self.tinfo.attrtimes@),
    {
        let times = &self.tinfo.attrtimes;
        let mut cur: Option<i64> = None;
        assert(times@.take(0) =~= Seq::<Option<i64>>::empty());
        let mut i: usize = 0;
        while i < times.len()
            invariant
                i <= times@.len(),
                cur == opt_min_ts(times@.take(i as int)),
            decreases times@.len() - i,
        {
            proof {
                assert(times@.take(i as int + 1).drop_last() =~= times@.take(i as int));
                assert(times@.take(i as int + 1).last() == times@[i as int]);
            }
            match times[i] {
                Some(t) => {
                    cur = match cur {
                        Some(m) => if t < m {
                            Some(t)
                        } else {
                            Some(m)
                        },
                        None => Some(t),
                    };
                },
                None => {},
            }
            i = i + 1;
        }
        assert(times@.take(times@.len() as int) =~= times@);
        cur
    }

    pub fn get_earliest(&self) -> (r: Result<FileDateTime, PlaceError>)
        ensures
            match self.tinfo.earliest {
                Some(e) => r == Ok::<FileDateTime, PlaceError>(e),
                None => r == Err::<FileDateTime, PlaceError>(PlaceError::EarliestNotSet),
            },
    {
        match self.tinfo.earliest {
            Some(e) => Ok(e),
            None => Err(PlaceError::EarliestNotSet),
        }
    }

    /// The parts a fresh placement generates at collision index `i`.
    pub open spec fn spec_parts_at(self, e: FileDateTime, i: int, rename: bool) -> Seq<Seq<char>> {
        let nm = if rename {
            Some(ymd_name(e))
        } else {
            None::<Seq<char>>
        };
        seq![dec_str(e.year as nat), dec_str_pad(e.month as nat, 2), self.spec_get_name(i, nm)]
    }

    /// The first collision index below the cap whose generated path is not
    /// already taken.
    pub open spec fn free_index(
        self,
        e: FileDateTime,
        dir: Seq<char>,
        existing: Seq<String>,
        rename: bool,
        i: int,
    ) -> Option<int>
        decreases 1000 - i,
    {
        if i < 0 || i >= 1000 {
            None
        } else if !str_in_list(existing, join_parts(dir, self.spec_parts_at(e, i, rename))) {
            Some(i)
        } else {
            self.free_index(e, dir, existing, rename, i + 1)
        }
    }

    /// Assigns the destination: a target already known reuses its recorded
    /// parts; otherwise the first free index below the cap names the file,
    /// with the resolved date as the stem when renaming is on. `existing`
    /// holds the destination paths already taken. Fails when the earliest
    /// instant is unresolved, or the cap is exhausted.
    pub fn set_output(&mut self, dir: &str, rename_with_ymd: bool, existing: &Vec<String>) -> (r:
        Result<(), PlaceError>)
        requires
            old(self).dealt ==> old(self).parts is Some,
        ensures
            final(self).path == old(self).path,
            final(self).hash == old(self).hash,
            final(self).tinfo == old(self).tinfo,
            final(self).dealt == old(self).dealt,
            final(self).ftype == old(self).ftype,
            final(self).name == old(self).name,
            final(self).extension == old(self).extension,
            old(self).dealt ==> r is Ok && final(self).parts == old(self).parts && final(self).output@ == join_parts(dir@, str_views(old(self).parts->0@)),
            !old(self).dealt ==> match old(self).tinfo.earliest {
                None => r == Err::<(), PlaceError>(PlaceError::EarliestNotSet) && final(self).parts
                    == old(self).parts && final(self).output == old(self).output,
                Some(e) => match old(self).free_index(e, dir@, existing@, rename_with_ymd, 0) {
                    None => r == Err::<(), PlaceError>(PlaceError::TooManyCollisions) && final(self).parts == old(self).parts && final(self).output == old(self).output,
                    Some(i) => {
                        &&& r is Ok
                        &&& final(self).parts matches Some(p) && str_views(p@) == old(self).spec_parts_at(e, i, rename_with_ymd)
                        &&& final(self).output@ == join_parts(
                            dir@,
                            old(self).spec_parts_at(e, i, rename_with_ymd),
                        )
                    },
                },
            },
    {
        if self.dealt {
            let parts = match &self.parts {
                Some(p) => p,
                None => {
                    return Err(PlaceError::PartsNotSet);
                },
            };
            self.output = output_gen(dir, parts);
            return Ok(());
        }
        let e = match self.tinfo.earliest {
            Some(e) => e,
            None => {
                return Err(PlaceError::EarliestNotSet);
            },
        };
        let year_s = chars_to_string(&u64_digits(e.year as u64));
        let month_s = chars_to_string(&u64_digits_pad(e.month as u64, 2));
        let rename_s: Option<String> = if rename_with_ymd {
            let mut v = u64_digits(e.year as u64);
            v.push('-');
            let month = u64_digits_pad(e.month as u64, 2);
            append_chars(&mut v, &month);
            v.push('-');
            let day = u64_digits_pad(e.day as u64, 2);
            append_chars(&mut v, &day);
            assert(v@ =~= ymd_name(e));
            Some(chars_to_string(&v))
        } else {
            None
        };
        let mut i: usize = 0;
        while i < 1000
            invariant
                i <= 1000,
                year_s@ == dec_str(e.year as nat),
                month_s@ == dec_str_pad(e.month as nat, 2),
                match rename_s {
                    Some(s) => rename_with_ymd && s@ == ymd_name(e),
                    None => !rename_with_ymd,
                },
                self == old(self),
                old(self).dealt == false,
                old(self).tinfo.earliest == Some(e),
                old(self).free_index(e, dir@, existing@, rename_with_ymd, 0) == old(self)
                    .free_index(e, dir@, existing@, rename_with_ymd, i as int),
            decreases 1000 - i,
        {
            let nm_ref: Option<&str> = match &rename_s {
                Some(s) => Some(s.as_str()),
                None => None,
            };
            let fname = self.get_name(i, nm_ref);
            let mut parts: Vec<String> = Vec::new();
            parts.push(year_s.clone());
            parts.push(month_s.clone());
            parts.push(fname);
            proof {
                assert(str_views(parts@) =~= self.spec_parts_at(e, i as int, rename_with_ymd));
            }
            let candidate = output_gen(dir, &parts);
            if !str_list_contains(existing, candidate.as_str()) {
                self.parts = Some(parts);
                self.output = candidate;
                return Ok(());
            }
            i = i + 1;
        }
        Err(PlaceError::TooManyCollisions)
    }

    /// Whether placement still has to copy: the destination is missing, or
    /// it holds different content and is overwritten.
    pub open spec fn spec_need_copy(output_exists: bool, same_hash: bool) -> bool {
        !(output_exists && same_hash)
    }

    /// Decides whether the copy happens: a destination already holding the
    /// same content is left alone; a missing or changed one is written.
    pub fn need_copy(&self, output_exists: bool, same_hash: bool) -> (r: bool)
        ensures
            r == Target::spec_need_copy(output_exists, same_hash),
    {
        !(output_exists && same_hash)
    }
}

} // verus!
