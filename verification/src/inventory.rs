//! The subtask inventory and its query engine: built once from the
//! discovered files under a root, read-only afterwards.

use vstd::prelude::*;

use crate::classify::classify;
use crate::classify::spec_classify;
use crate::errors::EtlError;
use crate::subtask::Subtask;
use crate::subtask::SubtaskView;
use crate::strutil::str_eq;
use crate::taxonomy::SystemType;

verus! {

/// The abstract value of a query filter: each present field constrains the
/// matching subtasks. The system-type field is already resolved.
pub ghost struct FilterView {
    pub stage: Option<Seq<char>>,
    pub entity: Option<Seq<char>>,
    pub system_type: Option<SystemType>,
    pub task_type: Option<Seq<char>>,
    pub is_common: Option<bool>,
}

/// A subtask matches a filter when every present filter field equals the
/// corresponding subtask field. Stage and task-type tokens compare against
/// the uppercase tag of the subtask's value; a subtask without the field
/// never matches a present constraint.
pub open spec fn matches_filter(s: SubtaskView, f: FilterView) -> bool {
    &&& (f.stage matches Some(tok) ==> s.stage matches Some(g) && g.spec_str() == tok)
    &&& (f.entity matches Some(e) ==> s.entity == Some(e))
    &&& (f.system_type matches Some(v) ==> s.system_type == Some(v))
    &&& (f.task_type matches Some(tok) ==> s.task_type matches Some(g) && g.spec_str() == tok)
    &&& (f.is_common matches Some(b) ==> s.is_common == b)
}

/// The subtasks that match the filter, in inventory order.
pub open spec fn spec_filtered(subs: Seq<SubtaskView>, f: FilterView) -> Seq<SubtaskView>
    decreases subs.len(),
{
    if subs.len() == 0 {
        Seq::empty()
    } else {
        let rest = spec_filtered(subs.drop_last(), f);
        if matches_filter(subs.last(), f) {
            rest.push(subs.last())
        } else {
            rest
        }
    }
}

/// Whether some subtask in `subs` has path `p`: path is the identity key.
pub open spec fn contains_path(subs: Seq<SubtaskView>, p: Seq<char>) -> bool {
    exists|j: int| 0 <= j < subs.len() && subs[j].path == p
}

/// Appends, in inventory order, every common subtask whose path is not yet
/// in the accumulated result, whatever the filter said of it.
pub open spec fn spec_append_commons(subs: Seq<SubtaskView>, acc: Seq<SubtaskView>) -> Seq<
    SubtaskView,
>
    decreases subs.len(),
{
    if subs.len() == 0 {
        acc
    } else {
        let prev = spec_append_commons(subs.drop_last(), acc);
        let s = subs.last();
        if s.is_common && !contains_path(prev, s.path) {
            prev.push(s)
        } else {
            prev
        }
    }
}

/// The full answer of a query: the filtered subtasks, followed, when
/// `include_common` is set, by the common subtasks not already present.
pub open spec fn spec_get_tasks(subs: Seq<SubtaskView>, f: FilterView, include_common: bool) -> Seq<
    SubtaskView,
> {
    let filtered = spec_filtered(subs, f);
    if include_common {
        spec_append_commons(subs, filtered)
    } else {
        filtered
    }
}

/// Whether a subtask satisfies a name lookup: the name must equal, and a
/// requested entity must equal exactly — a subtask without an entity does
/// not satisfy an entity request.
pub open spec fn task_matches(s: SubtaskView, name: Seq<char>, entity: Option<Seq<char>>) -> bool {
    s.name == name && (entity matches Some(e) ==> s.entity == Some(e))
}

/// The first subtask in inventory order that satisfies a name lookup.
pub open spec fn spec_get_task(
    subs: Seq<SubtaskView>,
    name: Seq<char>,
    entity: Option<Seq<char>>,
) -> Option<SubtaskView>
    decreases subs.len(),
{
    if subs.len() == 0 {
        None
    } else if task_matches(subs.first(), name, entity) {
        Some(subs.first())
    } else {
        spec_get_task(subs.drop_first(), name, entity)
    }
}

/// What building an inventory from the discovered files yields: every file
/// classified, in discovery order, and the first classification error
/// aborting the whole build.
pub open spec fn spec_build(base: Seq<char>, files: Seq<Seq<char>>) -> Result<
    Seq<SubtaskView>,
    EtlError,
>
    decreases files.len(),
{
    if files.len() == 0 {
        Ok(Seq::empty())
    } else {
        match spec_classify(base, files.first()) {
            Err(e) => Err(e),
            Ok(s) => match spec_build(base, files.drop_first()) {
                Err(e) => Err(e),
                Ok(rest) => Ok(seq![s] + rest),
            },
        }
    }
}

/// The inventory of classified subtasks under one root. Built once; queries
/// only read it.
#[derive(Debug)]
pub struct SubtaskManager {
    pub base_path: String,
    pub subtasks: Vec<Subtask>,
}

impl SubtaskManager {
    /// The abstract inventory: the views of the subtasks, in order.
    pub open spec fn spec_subtasks(&self) -> Seq<SubtaskView> {
        self.subtasks.deep_view()
    }

    /// Builds the inventory for a root from the files discovered under it,
    /// classifying each; the first classification error aborts the build.
    pub fn new(base_path: String, files: Vec<String>) -> (r: Result<SubtaskManager, EtlError>)
        ensures
            match spec_build(base_path@, files.deep_view()) {
                Ok(subs) => r matches Ok(m) && m.base_path@ == base_path@ && m.spec_subtasks()
                    == subs,
                Err(e) => r == Err::<SubtaskManager, EtlError>(e),
            },
    {
        let ghost bv = base_path@;
        let ghost fv = files.deep_view();
        let n = files.len();
        let mut subtasks: Vec<Subtask> = Vec::new();
        proof {
            assert(fv.skip(0) =~= fv);
            match spec_build(bv, fv) {
                Ok(s0) => {
                    assert(subtasks.deep_view() + s0 =~= s0);
                },
                Err(_) => {},
            }
        }
        let mut i: usize = 0;
        while i < n
            invariant
                i <= n,
                n == fv.len(),
                fv == files.deep_view(),
                bv == base_path@,
                spec_build(bv, fv) == (match spec_build(bv, fv.skip(i as int)) {
                    Ok(rest) => Ok::<Seq<SubtaskView>, EtlError>(subtasks.deep_view() + rest),
                    Err(e) => Err::<Seq<SubtaskView>, EtlError>(e),
                }),
            decreases n - i,
        {
            proof {
                assert(fv.skip(i as int).first() == fv[i as int]);
                assert(fv.skip(i as int).drop_first() =~= fv.skip(i + 1));
            }
            let ghost old_dv = subtasks.deep_view();
            match classify(base_path.as_str(), files[i].as_str()) {
                Ok(s) => {
                    subtasks.push(s);
                    proof {
                        assert(subtasks.deep_view() =~= old_dv.push(
                            subtasks.deep_view().last(),
                        ));
                        assert forall|rest: Seq<SubtaskView>|
                            old_dv + (seq![subtasks.deep_view().last()] + rest) =~= (
                            subtasks.deep_view() + rest) by {}
                    }
                },
                Err(e) => {
                    return Err(e);
                },
            }
            i += 1;
        }
        proof {
            assert(fv.skip(n as int) =~= Seq::<Seq<char>>::empty());
            assert(subtasks.deep_view() + Seq::<SubtaskView>::empty() =~= subtasks.deep_view());
        }
        Ok(SubtaskManager { base_path, subtasks })
    }

    /// The classified subtasks, in inventory order.
    pub fn subtasks(&self) -> (r: &Vec<Subtask>)
        ensures
            r.deep_view() == self.spec_subtasks(),
    {
        &self.subtasks
    }

    /// Answers a multi-criteria query: every provided field must equal the
    /// subtask's; a provided system-type token is resolved strictly first,
    /// and a token no variant recognizes fails the whole call with
    /// `UnknownAlias`. When `include_common` (default true) is set, common
    /// subtasks not already in the result are appended regardless of the
    /// other criteria.
    pub fn get_tasks(
        &self,
        etl_stage: Option<String>,
        entity: Option<String>,
        system_type: Option<String>,
        task_type: Option<String>,
        is_common: Option<bool>,
        include_common: Option<bool>,
    ) -> (r: Result<Vec<Subtask>, EtlError>)
        ensures
            ({
                let sysr = match system_type {
                    Some(st) => SystemType::spec_lookup(st@),
                    None => None,
                };
                if system_type is Some && sysr is None {
                    r == Err::<Vec<Subtask>, EtlError>(EtlError::UnknownAlias)
                } else {
                    let f = FilterView {
                        stage: etl_stage.deep_view(),
                        entity: entity.deep_view(),
                        system_type: sysr,
                        task_type: task_type.deep_view(),
                        is_common,
                    };
                    let inc = match include_common {
                        Some(b) => b,
                        None => true,
                    };
                    r matches Ok(v) && v.deep_view() == spec_get_tasks(
                        self.spec_subtasks(),
                        f,
                        inc,
                    )
                }
            }),
    {
        let sys_filter: Option<SystemType> = match &system_type {
            Some(st) => match SystemType::from_alias(st.as_str()) {
                Ok(v) => Some(v),
                Err(e) => {
                    return Err(e);
                },
            },
            None => None,
        };
        let ghost f = FilterView {
            stage: etl_stage.deep_view(),
            entity: entity.deep_view(),
            system_type: match system_type {
                Some(st) => SystemType::spec_lookup(st@),
                None => None,
            },
            task_type: task_type.deep_view(),
            is_common,
        };
        let ghost subs_v = self.spec_subtasks();
        let n = self.subtasks.len();
        let mut out: Vec<Subtask> = Vec::new();
        let mut i: usize = 0;
        while i < n
            invariant
                i <= n,
                n == subs_v.len(),
                subs_v == self.spec_subtasks(),
                sys_filter == f.system_type,
                f.stage == etl_stage.deep_view(),
                f.entity == entity.deep_view(),
                f.task_type == task_type.deep_view(),
                f.is_common == is_common,
                out.deep_view() == spec_filtered(subs_v.take(i as int), f),
            decreases n - i,
        {
            proof {
                assert(subs_v.take(i + 1).drop_last() =~= subs_v.take(i as int));
                assert(subs_v.take(i + 1).last() == subs_v[i as int]);
            }
            let sub = &self.subtasks[i];
            let stage_ok: bool = match (&etl_stage, &sub.stage) {
                (Some(tok), Some(g)) => str_eq(tok.as_str(), g.as_str()),
                (Some(_), None) => false,
                (None, _) => true,
            };
            let entity_ok: bool = match (&entity, &sub.entity) {
                (Some(e), Some(se)) => str_eq(e.as_str(), se.as_str()),
                (Some(_), None) => false,
                (None, _) => true,
            };
            let system_ok: bool = match (&sys_filter, &sub.system_type) {
                (Some(v), Some(sv)) => *v == *sv,
                (Some(_), None) => false,
                (None, _) => true,
            };
            let task_ok: bool = match (&task_type, &sub.task_type) {
                (Some(tok), Some(g)) => str_eq(tok.as_str(), g.as_str()),
                (Some(_), None) => false,
                (None, _) => true,
            };
            let common_ok: bool = match is_common {
                Some(b) => sub.is_common == b,
                None => true,
            };
            proof {
                assert(sub@ == subs_v[i as int]);
                assert(stage_ok == (f.stage matches Some(tok) ==> sub@.stage matches Some(g)
                    && g.spec_str() == tok));
                assert(entity_ok == (f.entity matches Some(e) ==> sub@.entity == Some(e)));
                assert(system_ok == (f.system_type matches Some(v) ==> sub@.system_type == Some(
                    v,
                )));
                assert(task_ok == (f.task_type matches Some(tok) ==> sub@.task_type matches Some(
                    g,
                ) && g.spec_str() == tok));
                assert(common_ok == (f.is_common matches Some(b) ==> sub@.is_common == b));
                assert((stage_ok && entity_ok && system_ok && task_ok && common_ok)
                    == matches_filter(subs_v[i as int], f));
            }
            if stage_ok && entity_ok && system_ok && task_ok && common_ok {
                let ghost old_dv = out.deep_view();
                out.push(sub.clone());
                proof {
                    assert(out.deep_view() =~= old_dv.push(subs_v[i as int]));
                }
            }
            i += 1;
        }
        proof {
            assert(subs_v.take(n as int) =~= subs_v);
        }
        let with_common = match include_common {
            Some(b) => b,
            None => true,
        };
        if with_common {
            let ghost filtered_v = out.deep_view();
            let mut j: usize = 0;
            while j < n
                invariant
                    j <= n,
                    n == subs_v.len(),
                    subs_v == self.spec_subtasks(),
                    out.deep_view() == spec_append_commons(subs_v.take(j as int), filtered_v),
                decreases n - j,
            {
                proof {
                    assert(subs_v.take(j + 1).drop_last() =~= subs_v.take(j as int));
                    assert(subs_v.take(j + 1).last() == subs_v[j as int]);
                }
                let sub = &self.subtasks[j];
                if sub.is_common {
                    let mut present = false;
                    let mut k: usize = 0;
                    let m = out.len();
                    while k < m
                        invariant
                            k <= m,
                            m == out.deep_view().len(),
                            !present ==> forall|x: int|
                                0 <= x < k ==> out.deep_view()[x].path != sub@.path,
                            present ==> contains_path(out.deep_view(), sub@.path),
                            sub@ == subs_v[j as int],
                            subs_v == self.spec_subtasks(),
                            j < n,
                            n == subs_v.len(),
                        decreases m - k,
                    {
                        if str_eq(out[k].path.as_str(), sub.path.as_str()) {
                            present = true;
                            proof {
                                assert(out.deep_view()[k as int].path == sub@.path);
                            }
                        }
                        k += 1;
                    }
                    if !present {
                        let ghost old_dv = out.deep_view();
                        proof {
                            assert(!contains_path(old_dv, sub@.path));
                        }
                        out.push(sub.clone());
                        proof {
                            assert(out.deep_view() =~= old_dv.push(subs_v[j as int]));
                        }
                    }
                }
                j += 1;
            }
            proof {
                assert(subs_v.take(n as int) =~= subs_v);
            }
        }
        Ok(out)
    }

    /// Looks up the first subtask, in inventory order, whose name equals the
    /// given name and, when an entity is requested, whose entity equals it
    /// exactly; fails with `NotFound` when none does.
    pub fn get_task(&self, name: String, entity: Option<String>) -> (r: Result<Subtask, EtlError>)
        ensures
            match spec_get_task(self.spec_subtasks(), name@, entity.deep_view()) {
                Some(v) => r matches Ok(t) && t@ == v,
                None => r == Err::<Subtask, EtlError>(EtlError::NotFound),
            },
    {
        let ghost subs_v = self.spec_subtasks();
        let ghost nv = name@;
        let ghost ev = entity.deep_view();
        let n = self.subtasks.len();
        proof {
            assert(subs_v.skip(0) =~= subs_v);
        }
        let mut i: usize = 0;
        while i < n
            invariant
                i <= n,
                n == subs_v.len(),
                subs_v == self.spec_subtasks(),
                nv == name@,
                ev == entity.deep_view(),
                spec_get_task(subs_v, nv, ev) == spec_get_task(subs_v.skip(i as int), nv, ev),
            decreases n - i,
        {
            proof {
                assert(subs_v.skip(i as int).first() == subs_v[i as int]);
                assert(subs_v.skip(i as int).drop_first() =~= subs_v.skip(i + 1));
            }
            let sub = &self.subtasks[i];
            let name_ok = str_eq(sub.name.as_str(), name.as_str());
            let entity_ok: bool = match (&entity, &sub.entity) {
                (Some(e), Some(se)) => str_eq(e.as_str(), se.as_str()),
                (Some(_), None) => false,
                (None, _) => true,
            };
            proof {
                assert(sub@ == subs_v[i as int]);
                assert((name_ok && entity_ok) == task_matches(subs_v[i as int], nv, ev));
            }
            if name_ok && entity_ok {
                return Ok(sub.clone());
            }
            i += 1;
        }
        Err(EtlError::NotFound)
    }
}

} // verus!
