//! The parse stage of the placement pipeline: a target whose hash the index
//! already holds adopts the historical placement; otherwise the metadata
//! lines are walked for a type correction and candidate instants, and the
//! earliest credible instant is resolved.
use vstd::prelude::*;

use crate::config::Config;
use crate::datetime::{civil_utc_of, fdt_of_tuple, fdt_tuple, FileDateTime};
use crate::db::FileInfo;
use crate::parse::{capture_from_string, capture_from_string_spec, datetime_from_string_spec, get_datetime_from_string};
use crate::target::Target;
use crate::text::{contains_any, opt_str_view, str_contains_any, str_in_list, str_list_contains, str_views};
use crate::PlaceError;

verus! {

/// The line blacklist of the configuration.
pub open spec fn builder_blacklist(cfg: Config) -> Seq<Seq<char>> {
    match cfg.dateregex.ignore {
        Some(ig) => str_views(ig@),
        None => Seq::empty(),
    }
}

/// The candidate one metadata line contributes during parse: nothing when
/// the line is blacklisted, yields no date, or is dated before 1975.
pub open spec fn builder_line_candidate(line: Seq<char>, cfg: Config) -> Option<FileDateTime> {
    if contains_any(line, builder_blacklist(cfg)) {
        None
    } else {
        match datetime_from_string_spec(line, cfg) {
            Some(t) => if t.0 >= 1975 {
                Some(fdt_of_tuple(t))
            } else {
                None
            },
            None => None,
        }
    }
}

/// The candidates the metadata lines contribute, in line order.
pub open spec fn builder_candidates(texts: Seq<Seq<char>>, cfg: Config) -> Seq<FileDateTime>
    decreases texts.len(),
{
    if texts.len() == 0 {
        Seq::empty()
    } else {
        let rest = builder_candidates(texts.drop_last(), cfg);
        match builder_line_candidate(texts.last(), cfg) {
            Some(f) => rest.push(f),
            None => rest,
        }
    }
}

/// Pre-1975 rejection in the parse stage: every candidate the metadata
/// lines contribute is dated 1975 or later, so resolution falls through to
/// the attribute times when the metadata only offers earlier dates.
pub proof fn lemma_builder_pre_1975_rejected(texts: Seq<Seq<char>>, cfg: Config)
    ensures
        forall|i: int|
            0 <= i < builder_candidates(texts, cfg).len() ==> (#[trigger] builder_candidates(
                texts,
                cfg,
            )[i]).year >= 1975,
    decreases texts.len(),
{
    if texts.len() > 0 {
        lemma_builder_pre_1975_rejected(texts.drop_last(), cfg);
        let rest = builder_candidates(texts.drop_last(), cfg);
        let cur = builder_candidates(texts, cfg);
        assert forall|i: int| 0 <= i < cur.len() implies cur[i].year >= 1975 by {
            let lc = builder_line_candidate(texts.last(), cfg);
            if lc is Some {
                if i < rest.len() {
                    assert(cur[i] == rest[i]);
                } else {
                    assert(cur[i] == lc->0);
                }
            } else {
                assert(cur[i] == rest[i]);
            }
        }
    }
}

/// The corrected type after the metadata lines are read: while none is
/// known, the first capture of a non-blacklisted line fills it.
pub open spec fn builder_ftype_after(
    texts: Seq<Seq<char>>,
    cfg: Config,
    initial: Option<Seq<char>>,
) -> Option<Seq<char>>
    decreases texts.len(),
{
    if texts.len() == 0 {
        initial
    } else {
        let next = if initial is None && !contains_any(texts[0], builder_blacklist(cfg)) {
            match capture_from_string_spec(texts[0], cfg.typeregex.list@, false) {
                Some(t) => Some(t),
                None => initial,
            }
        } else {
            initial
        };
        builder_ftype_after(texts.drop_first(), cfg, next)
    }
}

/// The type the target starts the line walk with: an extension on the
/// ignore list pins the type to the extension itself.
pub open spec fn builder_ftype_initial(target: Target, cfg: Config) -> Option<Seq<char>> {
    let captype = match cfg.typeregex.ignore {
        Some(ig) => !str_in_list(ig@, target.extension@),
        None => true,
    };
    if !captype && target.ftype is None {
        Some(target.extension@)
    } else {
        opt_str_view(target.ftype)
    }
}

/// Parses one target: a known hash adopts the historical parts and instant
/// and skips resolution; a new one walks the metadata lines and resolves
/// the earliest credible instant against the attribute times.
pub fn do_parse(target: Target, history: Option<FileInfo>, texts: &Vec<String>, cfg: &Config) -> (r:
    Result<Target, PlaceError>)
    requires
        cfg.wf(),
        target.dealt == false,
        target.ftype is None,
        target.tinfo.parsedtimes@.len() == 0,
        history matches Some(h) ==> h.earliest >= 0,
    ensures
        match history {
            Some(h) => match civil_utc_of(h.earliest) {
                Some(t) => r matches Ok(t2) && t2.dealt && t2.parts == Some(h.parts)
                    && t2.tinfo.earliest == Some(fdt_of_tuple(t)) && t2.path == target.path
                    && t2.hash == target.hash && t2.ftype == target.ftype && t2.name
                    == target.name && t2.extension == target.extension,
                None => r == Err::<Target, PlaceError>(PlaceError::NoTimestampFound),
            },
            None => {
                let cands = builder_candidates(str_views(texts@), *cfg);
                let pool = crate::target::pool_of(cands, target.tinfo.attrtimes@);
                &&& r is Ok <==> pool.len() > 0
                &&& !(r is Ok) ==> r == Err::<Target, PlaceError>(PlaceError::NoTimestampFound)
                &&& r matches Ok(t2) ==> {
                    &&& t2.tinfo.parsedtimes@ == cands
                    &&& t2.tinfo.earliest == crate::resolver::resolution(pool)
                    &&& opt_str_view(t2.ftype) == builder_ftype_after(
                        str_views(texts@),
                        *cfg,
                        builder_ftype_initial(target, *cfg),
                    )
                    &&& t2.dealt == false
                    &&& t2.path == target.path
                    &&& t2.hash == target.hash
                    &&& t2.name == target.name
                    &&& t2.extension == target.extension
                    &&& t2.parts == target.parts
                    &&& t2.tinfo.attrtimes == target.tinfo.attrtimes
                }
            },
        },
{
    let mut t = target;
    match history {
        Some(h) => {
            t.dealt = true;
            let he = h.earliest;
            t.parts = Some(h.parts);
            let set = t.set_earliest(Some(he as u64));
            match set {
                Ok(()) => {
                    return Ok(t);
                },
                Err(e) => {
                    return Err(e);
                },
            }
        },
        None => {},
    }
    let captype = match &cfg.typeregex.ignore {
        Some(ig) => !str_list_contains(ig, t.extension.as_str()),
        None => true,
    };
    if !captype {
        t.ftype = Some(t.extension.clone());
    }
    let ghost tv = str_views(texts@);
    assert(tv.skip(0) =~= tv);
    assert(tv.take(0) =~= Seq::<Seq<char>>::empty());
    assert(t.tinfo.parsedtimes@ =~= builder_candidates(tv.take(0), *cfg));
    assert(opt_str_view(t.ftype) == builder_ftype_initial(target, *cfg));
    let mut i: usize = 0;
    while i < texts.len()
        invariant
            i <= texts@.len(),
            cfg.wf(),
            tv == str_views(texts@),
            tv.len() == texts@.len(),
            t.tinfo.parsedtimes@ == builder_candidates(tv.take(i as int), *cfg),
            builder_ftype_after(tv, *cfg, builder_ftype_initial(target, *cfg))
                == builder_ftype_after(tv.skip(i as int), *cfg, opt_str_view(t.ftype)),
            t.path == target.path,
            t.hash == target.hash,
            t.name == target.name,
            t.extension == target.extension,
            t.parts == target.parts,
            t.dealt == false,
            t.tinfo.attrtimes == target.tinfo.attrtimes,
            t.tinfo.earliest == target.tinfo.earliest,
            t.output == target.output,
        decreases texts@.len() - i,
    {
        proof {
            assert(tv[i as int] == texts@[i as int]@);
            assert(tv.take(i as int + 1).drop_last() =~= tv.take(i as int));
            assert(tv.take(i as int + 1).last() == tv[i as int]);
            assert(tv.skip(i as int)[0] == tv[i as int]);
            assert(tv.skip(i as int).drop_first() =~= tv.skip(i as int + 1));
        }
        let line = texts[i].as_str();
        let blacklisted = match &cfg.dateregex.ignore {
            Some(ig) => str_contains_any(line, ig),
            None => false,
        };
        if !blacklisted {
            if t.ftype.is_none() {
                let captured = capture_from_string(line, &cfg.typeregex.list, false);
                match captured {
                    Some(ft) => {
                        t.ftype = Some(ft);
                    },
                    None => {},
                }
            }
            let parsed = get_datetime_from_string(line, cfg);
            match parsed {
                Some(dt) => {
                    if dt.get_year() >= 1975 {
                        proof {
                            assert(fdt_of_tuple(fdt_tuple(dt)) == dt);
                        }
                        t.add_parsedtime(dt);
                    }
                },
                None => {},
            }
        }
        i = i + 1;
    }
    assert(tv.take(tv.len() as int) =~= tv);
    assert(tv.skip(tv.len() as int) =~= Seq::<Seq<char>>::empty());
    let set = t.set_earliest(None);
    match set {
        Ok(()) => Ok(t),
        Err(e) => Err(e),
    }
}

/// The index record a resolved target writes for its hash.
pub fn target_record(t: &Target) -> (r: Result<FileInfo, PlaceError>)
    ensures
        match t.parts {
            None => r == Err::<FileInfo, PlaceError>(PlaceError::PartsNotSet),
            Some(p) => match t.tinfo.earliest {
                None => r == Err::<FileInfo, PlaceError>(PlaceError::EarliestNotSet),
                Some(e) => r matches Ok(f) && f.parts@ == p@ && f.hash == t.hash && f.earliest
                    == e.timestamp,
            },
        },
{
    let parts = match &t.parts {
        Some(p) => p.clone(),
        None => {
            return Err(PlaceError::PartsNotSet);
        },
    };
    let earliest = match t.tinfo.earliest {
        Some(e) => e.timestamp,
        None => {
            return Err(PlaceError::EarliestNotSet);
        },
    };
    proof {
        crate::text::lemma_string_vec_clone_eq(t.parts->0, parts);
    }
    Ok(FileInfo { parts, hash: t.hash.clone(), earliest })
}

} // verus!
