//! The path classifier: derives stage, system type, entity and task type
//! from the folder segments between an inventory root and a file.

use vstd::prelude::*;

use crate::errors::EtlError;
use crate::paths::segments_of;
use crate::paths::spec_ext_of_name;
use crate::paths::spec_stem_of_name;
use crate::paths::split_path;
use crate::paths::stem_of;
use crate::paths::ext_of;
use crate::strutil::str_eq;
use crate::subtask::Subtask;
use crate::subtask::SubtaskView;
use crate::taxonomy::EtlStage;
use crate::taxonomy::SystemType;
use crate::taxonomy::TaskType;

verus! {

/// The folder segments strictly between the root and the file: the file's
/// parent segments with the root's segments skipped.
pub open spec fn middle_segments(base: Seq<char>, file: Seq<char>) -> Seq<Seq<char>> {
    let fsegs = segments_of(file);
    let parent = if fsegs.len() == 0 {
        fsegs
    } else {
        fsegs.drop_last()
    };
    let b = segments_of(base).len() as int;
    if b >= parent.len() {
        Seq::empty()
    } else {
        parent.skip(b)
    }
}

/// The value of the first segment that resolves to a stage other than
/// `Other`; scanning stops there.
pub open spec fn spec_stage_pick(segs: Seq<Seq<char>>) -> Option<Seq<char>>
    decreases segs.len(),
{
    if segs.len() == 0 {
        None
    } else if EtlStage::spec_resolve(segs.first()) != EtlStage::Other {
        Some(segs.first())
    } else {
        spec_stage_pick(segs.drop_first())
    }
}

/// The value of the last segment that resolves to a system type other than
/// `Other` and is not the segment value the stage scan consumed: every such
/// match overwrites the one before it.
pub open spec fn spec_system_pick(segs: Seq<Seq<char>>, stage_val: Option<Seq<char>>) -> Option<
    Seq<char>,
>
    decreases segs.len(),
{
    if segs.len() == 0 {
        None
    } else {
        let v = segs.last();
        if SystemType::spec_resolve(v) != SystemType::Other && stage_val != Some(v) {
            Some(v)
        } else {
            spec_system_pick(segs.drop_last(), stage_val)
        }
    }
}

/// A segment value is consumed when the stage scan claimed it or when it
/// names a system type. Consumption is by value: segments that spell the
/// same token are consumed together.
pub open spec fn seg_consumed(v: Seq<char>, stage_val: Option<Seq<char>>) -> bool {
    stage_val == Some(v) || SystemType::spec_resolve(v) != SystemType::Other
}

/// The segment values that no scan consumed, in order, duplicates kept:
/// the candidates for the entity label.
pub open spec fn spec_candidates(segs: Seq<Seq<char>>, stage_val: Option<Seq<char>>) -> Seq<
    Seq<char>,
>
    decreases segs.len(),
{
    if segs.len() == 0 {
        Seq::empty()
    } else {
        let rest = spec_candidates(segs.drop_last(), stage_val);
        if !seg_consumed(segs.last(), stage_val) {
            rest.push(segs.last())
        } else {
            rest
        }
    }
}

/// The file name of a path: its last segment, empty when there is none.
pub open spec fn spec_filename(file: Seq<char>) -> Seq<char> {
    let fsegs = segments_of(file);
    if fsegs.len() == 0 {
        Seq::empty()
    } else {
        fsegs.last()
    }
}

/// The task type a path's extension denotes; `Unknown` when the file name
/// has no extension.
pub open spec fn spec_task_of_file(file: Seq<char>) -> TaskType {
    match spec_ext_of_name(spec_filename(file)) {
        Some(e) => TaskType::spec_from_extension(e),
        None => TaskType::Unknown,
    }
}

/// What classifying `file` against the root `base` yields: the subtask with
/// its inferred metadata, or the error that rejects the path.
pub open spec fn spec_classify(base: Seq<char>, file: Seq<char>) -> Result<SubtaskView, EtlError> {
    let segs = middle_segments(base, file);
    if segs.len() > 3 {
        Err(EtlError::MalformedStructure)
    } else {
        let stage_val = spec_stage_pick(segs);
        let sys_val = spec_system_pick(segs, stage_val);
        let cands = spec_candidates(segs, stage_val);
        if cands.len() > 1 {
            Err(EtlError::MalformedStructure)
        } else {
            let tt = spec_task_of_file(file);
            if tt == TaskType::Unknown {
                Err(EtlError::UnknownTaskType)
            } else {
                Ok(
                    SubtaskView {
                        path: file,
                        name: spec_stem_of_name(spec_filename(file)),
                        stage: match stage_val {
                            Some(v) => Some(EtlStage::spec_resolve(v)),
                            None => None,
                        },
                        system_type: match sys_val {
                            Some(v) => Some(SystemType::spec_resolve(v)),
                            None => None,
                        },
                        entity: if cands.len() == 1 {
                            Some(cands[0])
                        } else {
                            None
                        },
                        task_type: Some(tt),
                        is_common: segs.len() == 0,
                    },
                )
            }
        }
    }
}

/// Finds the first segment that resolves to a stage other than `Other`.
fn find_stage(middle: &Vec<String>) -> (r: Option<usize>)
    ensures
        match r {
            Some(i) => i < middle@.len() && spec_stage_pick(middle.deep_view()) == Some(
                middle.deep_view()[i as int],
            ),
            None => spec_stage_pick(middle.deep_view()) is None,
        },
{
    let ghost dv = middle.deep_view();
    let n = middle.len();
    proof {
        assert(dv.skip(0) =~= dv);
    }
    let mut k: usize = 0;
    while k < n
        invariant
            k <= n,
            n == middle@.len(),
            dv == middle.deep_view(),
            spec_stage_pick(dv) == spec_stage_pick(dv.skip(k as int)),
        decreases n - k,
    {
        proof {
            assert(dv.skip(k as int).first() == dv[k as int]);
            assert(dv.skip(k as int).drop_first() =~= dv.skip(k + 1));
        }
        let st = EtlStage::from_folder_name(middle[k].as_str());
        if st != EtlStage::Other {
            return Some(k);
        }
        k += 1;
    }
    None
}

/// Finds the last segment that resolves to a system type other than `Other`
/// and is not the stage segment's value.
fn find_system(middle: &Vec<String>, stage_idx: Option<usize>) -> (r: Option<usize>)
    requires
        stage_idx matches Some(si) ==> si < middle@.len(),
    ensures
        ({
            let sv = match stage_idx {
                Some(si) => Some(middle.deep_view()[si as int]),
                None => None,
            };
            match r {
                Some(i) => i < middle@.len() && spec_system_pick(middle.deep_view(), sv) == Some(
                    middle.deep_view()[i as int],
                ),
                None => spec_system_pick(middle.deep_view(), sv) is None,
            }
        }),
{
    let ghost dv = middle.deep_view();
    let ghost sv: Option<Seq<char>> = match stage_idx {
        Some(si) => Some(dv[si as int]),
        None => None,
    };
    let n = middle.len();
    let mut found: Option<usize> = None;
    let mut j: usize = 0;
    while j < n
        invariant
            j <= n,
            n == middle@.len(),
            dv == middle.deep_view(),
            sv == (match stage_idx {
                Some(si) => Some(dv[si as int]),
                None => None::<Seq<char>>,
            }),
            stage_idx matches Some(si) ==> si < n,
            spec_system_pick(dv.take(j as int), sv) == (match found {
                Some(x) => Some(dv[x as int]),
                None => None::<Seq<char>>,
            }),
            found matches Some(x) ==> x < j,
        decreases n - j,
    {
        proof {
            assert(dv.take(j + 1).last() == dv[j as int]);
            assert(dv.take(j + 1).drop_last() =~= dv.take(j as int));
        }
        let is_stage_seg = match stage_idx {
            Some(si) => str_eq(middle[j].as_str(), middle[si].as_str()),
            None => false,
        };
        let sy = SystemType::from_folder_name(middle[j].as_str());
        if sy != SystemType::Other && !is_stage_seg {
            found = Some(j);
        }
        j += 1;
    }
    proof {
        assert(dv.take(n as int) =~= dv);
    }
    found
}

/// Classifies one discovered file against an inventory root, deriving the
/// stage, system type, entity, task type and display name from the folder
/// segments between the root and the file, or rejecting the path.
pub fn classify(base_path: &str, file_path: &str) -> (r: Result<Subtask, EtlError>)
    ensures
        match r {
            Ok(s) => spec_classify(base_path@, file_path@) == Ok::<SubtaskView, EtlError>(s@),
            Err(e) => spec_classify(base_path@, file_path@) == Err::<SubtaskView, EtlError>(e),
        },
{
    let fsegs = split_path(file_path);
    let bsegs = split_path(base_path);
    let b = bsegs.len();
    let nf = fsegs.len();
    let ghost fsv = fsegs.deep_view();
    let parent_len: usize = if nf > 0 {
        nf - 1
    } else {
        0
    };
    let ghost parent = if fsv.len() == 0 {
        fsv
    } else {
        fsv.drop_last()
    };
    proof {
        assert(parent.len() == parent_len);
        if nf > 0 {
            assert(parent =~= fsv.take(parent_len as int));
        }
    }

    // The segments strictly between the root and the file.
    let mut middle: Vec<String> = Vec::new();
    if b < parent_len {
        let mut i: usize = b;
        while i < parent_len
            invariant
                b <= i <= parent_len,
                parent_len < nf,
                nf == fsv.len(),
                fsv == fsegs.deep_view(),
                parent == fsv.drop_last(),
                parent.len() == parent_len,
                middle.deep_view() == parent.subrange(b as int, i as int),
            decreases parent_len - i,
        {
            let ghost old_dv = middle.deep_view();
            let piece = fsegs[i].clone();
            middle.push(piece);
            proof {
                assert(parent[i as int] == fsv[i as int]);
                assert(middle.deep_view() =~= old_dv.push(fsv[i as int]));
                assert(old_dv.push(parent[i as int]) =~= parent.subrange(b as int, i + 1));
            }
            i += 1;
        }
    }
    let ghost segs = middle_segments(base_path@, file_path@);
    proof {
        if b >= parent.len() {
            assert(middle.deep_view() =~= Seq::<Seq<char>>::empty());
        } else {
            assert(middle.deep_view() == parent.subrange(b as int, parent.len() as int));
            assert(parent.skip(b as int) =~= parent.subrange(b as int, parent.len() as int));
        }
        assert(middle.deep_view() == segs);
    }

    if middle.len() > 3 {
        return Err(EtlError::MalformedStructure);
    }

    // Stage: the first segment naming a stage claims it.
    let stage_idx = find_stage(&middle);
    let stage: Option<EtlStage> = match stage_idx {
        Some(si) => Some(EtlStage::from_folder_name(middle[si].as_str())),
        None => None,
    };
    let ghost stage_val = spec_stage_pick(segs);

    // System type: the last unconsumed segment naming a system claims it.
    let sys_idx = find_system(&middle, stage_idx);
    let system_type: Option<SystemType> = match sys_idx {
        Some(x) => Some(SystemType::from_folder_name(middle[x].as_str())),
        None => None,
    };

    // Whatever no scan consumed is the entity; more than one such segment
    // leaves the remainder ambiguous.
    let mut cands: Vec<String> = Vec::new();
    let mut j: usize = 0;
    while j < middle.len()
        invariant
            j <= middle@.len(),
            segs == middle.deep_view(),
            stage_val == spec_stage_pick(segs),
            stage_idx matches Some(si) ==> si < middle@.len() && stage_val == Some(
                segs[si as int],
            ),
            stage_idx is None ==> stage_val is None,
            cands.deep_view() == spec_candidates(segs.take(j as int), stage_val),
        decreases middle@.len() - j,
    {
        proof {
            assert(segs.take(j + 1).drop_last() =~= segs.take(j as int));
            assert(segs.take(j + 1).last() == segs[j as int]);
        }
        let is_stage_seg = match stage_idx {
            Some(si) => str_eq(middle[j].as_str(), middle[si].as_str()),
            None => false,
        };
        let sy = SystemType::from_folder_name(middle[j].as_str());
        let consumed = is_stage_seg || sy != SystemType::Other;
        if !consumed {
            let ghost old_dv = cands.deep_view();
            let piece = middle[j].clone();
            cands.push(piece);
            proof {
                assert(cands.deep_view() =~= old_dv.push(segs[j as int]));
            }
        }
        j += 1;
    }
    proof {
        assert(segs.take(middle@.len() as int) =~= segs);
        assert(cands.deep_view() == spec_candidates(segs, stage_val));
    }
    if cands.len() > 1 {
        return Err(EtlError::MalformedStructure);
    }
    let entity: Option<String> = if cands.len() == 1 {
        Some(cands[0].clone())
    } else {
        None
    };

    // Task type comes from the extension alone; a file without a recognized
    // extension is rejected.
    let task_type: TaskType = if nf > 0 {
        match ext_of(fsegs[nf - 1].as_str()) {
            Some(e) => TaskType::from_extension(e.as_str()),
            None => TaskType::Unknown,
        }
    } else {
        TaskType::Unknown
    };
    if task_type == TaskType::Unknown {
        return Err(EtlError::UnknownTaskType);
    }

    let name: String = stem_of(fsegs[nf - 1].as_str());
    let sub = Subtask {
        path: file_path.to_owned(),
        name,
        stage,
        system_type,
        entity,
        task_type: Some(task_type),
        is_common: middle.len() == 0,
    };
    Ok(sub)
}

} // verus!
