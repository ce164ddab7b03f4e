//! The calibration session of the commands: a slot that holds the running
//! calibration workflow, if there is one, and what each command decides
//! around the workflow's own operations.
//!
//! The workflow (camera capture and the calibration algorithm) is a value
//! of the caller's type; its operations are handed in as closures.

use vstd::prelude::*;
use crate::text::join2;

verus! {

/// The text that names a started calibration session.
pub open spec fn session_started() -> Seq<char> {
    "calibration_session_started"@
}

/// The refusal of a command that needs a session.
pub open spec fn no_session() -> Seq<char> {
    "标定会话未启动"@
}

/// Creates the workflow when the slot is empty; an error of `create` is
/// returned and the slot stays empty.
fn ensure_created<W, C: FnOnce() -> Result<W, String>>(slot: &mut Option<W>, create: C) -> (r: Result<(), String>)
    requires
        call_requires(create, ()),
    ensures
        *old(slot) is Some ==> r is Ok && *final(slot) == *old(slot),
        *old(slot) is None ==> exists|created: Result<W, String>| #![trigger call_ensures(create, (), created)] {
            &&& call_ensures(create, (), created)
            &&& (created matches Err(e) ==> r == Err::<(), String>(e) && *final(slot) is None)
            &&& (created matches Ok(w) ==> r is Ok && *final(slot) == Some(w))
        },
{
    if slot.is_none() {
        match create() {
            Ok(w) => {
                *slot = Some(w);
            },
            Err(e) => {
                return Err(e);
            },
        }
    }
    Ok(())
}

/// Starts a calibration session: a workflow is created with `create` when
/// there is none (its error is returned, and the slot stays empty), then
/// `start` starts it; its error is returned, and its success names the
/// session.
pub fn start_calibration_session<W, C, S>(slot: &mut Option<W>, create: C, start: S) -> (r: Result<String, String>)
    where
        C: FnOnce() -> Result<W, String>,
        S: FnOnce(&mut W) -> Result<(), String>,
    requires
        call_requires(create, ()),
        forall|x: &mut W| call_requires(start, (x,)),
    ensures
        ({
            let started = |w: W| exists|x: &mut W, outcome: Result<(), String>|
                #![trigger call_ensures(start, (x,), outcome)] {
                &&& *x == w
                &&& call_ensures(start, (x,), outcome)
                &&& *final(slot) == Some(*final(x))
                &&& (outcome is Ok ==> (r matches Ok(m) && m@ == session_started()))
                &&& (outcome matches Err(e) ==> r == Err::<String, String>(e))
            };
            &&& *old(slot) matches Some(w) ==> started(w)
            &&& *old(slot) is None ==> exists|created: Result<W, String>| #![trigger call_ensures(create, (), created)] {
                &&& call_ensures(create, (), created)
                &&& (created matches Err(e) ==> r == Err::<String, String>(e) && *final(slot) is None)
                &&& (created matches Ok(w) ==> started(w))
            }
        }),
{
    match ensure_created(slot, create) {
        Ok(()) => {},
        Err(e) => {
            return Err(e);
        },
    }
    match slot {
        Some(w) => match start(w) {
            Ok(()) => Ok("calibration_session_started".to_string()),
            Err(e) => Err(e),
        },
        None => Err("无法创建标定工作流程".to_string()),
    }
}

/// Saves the current frame as a calibration image pair with `save`; refused
/// without a session.
pub fn capture_calibration_image<W, V, S: FnOnce(&mut W) -> Result<V, String>>(slot: &mut Option<W>, save: S)
    -> (r: Result<V, String>)
    requires
        forall|x: &mut W| call_requires(save, (x,)),
    ensures
        *old(slot) is None ==> (r matches Err(e) && e@ == no_session()) && *final(slot) == *old(slot),
        *old(slot) matches Some(w) ==> exists|x: &mut W| #![trigger call_ensures(save, (x,), r)] {
            &&& *x == w
            &&& call_ensures(save, (x,), r)
            &&& *final(slot) == Some(*final(x))
        },
{
    match slot {
        Some(w) => save(w),
        None => Err("标定会话未启动".to_string()),
    }
}

/// The image pairs captured so far, as `list` reads them; refused without a session.
pub fn get_captured_images<W, V, L: FnOnce(&W) -> V>(slot: &Option<W>, list: L) -> (r: Result<V, String>)
    requires
        forall|w: &W| call_requires(list, (w,)),
    ensures
        *slot is None ==> (r matches Err(e) && e@ == no_session()),
        *slot matches Some(w) ==> (r matches Ok(v) && call_ensures(list, (&w,), v)),
{
    match slot {
        Some(w) => Ok(list(w)),
        None => Err("标定会话未启动".to_string()),
    }
}

/// Deletes image pair `pair_id` with `delete`; refused without a session.
pub fn delete_captured_image<W, D: FnOnce(&mut W, u32) -> Result<(), String>>(slot: &mut Option<W>, pair_id: u32,
    delete: D) -> (r: Result<(), String>)
    requires
        forall|x: &mut W, id: u32| call_requires(delete, (x, id)),
    ensures
        *old(slot) is None ==> (r matches Err(e) && e@ == no_session()) && *final(slot) == *old(slot),
        *old(slot) matches Some(w) ==> exists|x: &mut W| #![trigger call_ensures(delete, (x, pair_id), r)] {
            &&& *x == w
            &&& call_ensures(delete, (x, pair_id), r)
            &&& *final(slot) == Some(*final(x))
        },
{
    match slot {
        Some(w) => delete(w, pair_id),
        None => Err("标定会话未启动".to_string()),
    }
}

/// Runs the calibration on the captured images with `run`; refused without a session.
pub fn run_calibration_process<W, V, R: FnOnce(&mut W) -> Result<V, String>>(slot: &mut Option<W>, run: R)
    -> (r: Result<V, String>)
    requires
        forall|x: &mut W| call_requires(run, (x,)),
    ensures
        *old(slot) is None ==> (r matches Err(e) && e@ == no_session()) && *final(slot) == *old(slot),
        *old(slot) matches Some(w) ==> exists|x: &mut W| #![trigger call_ensures(run, (x,), r)] {
            &&& *x == w
            &&& call_ensures(run, (x,), r)
            &&& *final(slot) == Some(*final(x))
        },
{
    match slot {
        Some(w) => run(w),
        None => Err("标定会话未启动".to_string()),
    }
}

/// The workflow's status as `status` reads it; `not_started` without a session.
pub fn get_calibration_status<W, T, G: FnOnce(&W) -> T>(slot: &Option<W>, status: G, not_started: T)
    -> (r: Result<T, String>)
    requires
        forall|w: &W| call_requires(status, (w,)),
    ensures
        *slot is None ==> r == Ok::<T, String>(not_started),
        *slot matches Some(w) ==> (r matches Ok(t) && call_ensures(status, (&w,), t)),
{
    match slot {
        Some(w) => Ok(status(w)),
        None => Ok(not_started),
    }
}

/// Stops the session: the workflow is stopped with `stop` and dropped. If
/// stopping fails its error is returned and the workflow stays; without a
/// session there is nothing to do.
pub fn stop_calibration_session<W, T: FnOnce(&mut W) -> Result<(), String>>(slot: &mut Option<W>, stop: T)
    -> (r: Result<(), String>)
    requires
        forall|x: &mut W| call_requires(stop, (x,)),
    ensures
        *old(slot) is None ==> r is Ok && *final(slot) is None,
        *old(slot) matches Some(w) ==> exists|x: &mut W, outcome: Result<(), String>|
            #![trigger call_ensures(stop, (x,), outcome)] {
            &&& *x == w
            &&& call_ensures(stop, (x,), outcome)
            &&& (outcome matches Err(e) ==> r == Err::<(), String>(e) && *final(slot) == Some(*final(x)))
            &&& (outcome is Ok ==> r is Ok && *final(slot) is None)
        },
{
    match slot {
        Some(w) => match stop(w) {
            Ok(()) => {},
            Err(e) => {
                return Err(e);
            },
        },
        None => {},
    }
    *slot = None;
    Ok(())
}

/// Resets the session whatever state it is in: the workflow, if any, is
/// stopped with `stop` (its error is ignored) and dropped.
pub fn reset_calibration_workflow<W, T: FnOnce(&mut W) -> Result<(), String>>(slot: &mut Option<W>, stop: T)
    -> (r: Result<(), String>)
    requires
        forall|x: &mut W| call_requires(stop, (x,)),
    ensures
        r is Ok,
        *final(slot) is None,
        *old(slot) matches Some(w) ==> exists|x: &mut W, outcome: Result<(), String>|
            #![trigger call_ensures(stop, (x,), outcome)] *x == w && call_ensures(stop, (x,), outcome),
{
    match slot {
        Some(w) => {
            let _ = stop(w);
        },
        None => {},
    }
    *slot = None;
    Ok(())
}

/// The error text of a failed preview.
pub open spec fn preview_failure(e: Seq<char>) -> Seq<char> {
    "获取预览帧失败: "@ + e
}

/// Takes a preview frame (also saved as a calibration pair when
/// `should_save` is `Some(true)`) with `grab`. Without a session a workflow
/// is created with `create` and kept; a workflow that `not_started` reports
/// as not started is started with `start` first. Errors of `create` and
/// `start` are returned as they are, and an error of `grab` after the
/// preview prefix.
pub fn get_preview_frame<W, F, C, N, S, G>(should_save: Option<bool>, slot: &mut Option<W>, create: C,
    not_started: N, start: S, grab: G) -> (r: Result<F, String>)
    where
        C: FnOnce() -> Result<W, String>,
        N: FnOnce(&W) -> bool,
        S: FnOnce(&mut W) -> Result<(), String>,
        G: FnOnce(&mut W, bool) -> Result<F, String>,
    requires
        call_requires(create, ()),
        forall|w: &W| call_requires(not_started, (w,)),
        forall|x: &mut W| call_requires(start, (x,)),
        forall|x: &mut W, save: bool| call_requires(grab, (x, save)),
    ensures
        ({
            let save = should_save == Some(true);
            let grabbed = |w: W| exists|x: &mut W, frame: Result<F, String>|
                #![trigger call_ensures(grab, (x, save), frame)] {
                &&& *x == w
                &&& call_ensures(grab, (x, save), frame)
                &&& *final(slot) == Some(*final(x))
                &&& (frame matches Ok(f) ==> r == Ok::<F, String>(f))
                &&& (frame matches Err(e) ==> (r matches Err(m) && m@ == preview_failure(e@)))
            };
            let prepared = |w: W| exists|fresh: bool| #![trigger call_ensures(not_started, (&w,), fresh)] {
                &&& call_ensures(not_started, (&w,), fresh)
                &&& !fresh ==> grabbed(w)
                &&& fresh ==> exists|x: &mut W, outcome: Result<(), String>|
                    #![trigger call_ensures(start, (x,), outcome)] {
                    &&& *x == w
                    &&& call_ensures(start, (x,), outcome)
                    &&& (outcome matches Err(e) ==> r == Err::<F, String>(e) && *final(slot) == Some(*final(x)))
                    &&& (outcome is Ok ==> grabbed(*final(x)))
                }
            };
            &&& *old(slot) matches Some(w) ==> prepared(w)
            &&& *old(slot) is None ==> exists|created: Result<W, String>| #![trigger call_ensures(create, (), created)] {
                &&& call_ensures(create, (), created)
                &&& (created matches Err(e) ==> r == Err::<F, String>(e) && *final(slot) is None)
                &&& (created matches Ok(w) ==> prepared(w))
            }
        }),
{
    let save = match should_save {
        Some(b) => b,
        None => false,
    };
    match ensure_created(slot, create) {
        Ok(()) => {},
        Err(e) => {
            return Err(e);
        },
    }
    match slot {
        Some(w) => {
            if not_started(&*w) {
                match start(w) {
                    Ok(()) => {},
                    Err(e) => {
                        return Err(e);
                    },
                }
            }
            match grab(w, save) {
                Ok(frame) => Ok(frame),
                Err(e) => Err(join2("获取预览帧失败: ", e.as_str())),
            }
        },
        None => Err("无法创建标定工作流程".to_string()),
    }
}

/// The image pair saved last, as `latest` reads it; none without a session.
pub fn get_latest_captured_image<W, V, L: FnOnce(&W) -> Option<V>>(slot: &Option<W>, latest: L)
    -> (r: Result<Option<V>, String>)
    requires
        forall|w: &W| call_requires(latest, (w,)),
    ensures
        *slot is None ==> r == Ok::<Option<V>, String>(None),
        *slot matches Some(w) ==> (r matches Ok(v) && call_ensures(latest, (&w,), v)),
{
    match slot {
        Some(w) => Ok(latest(w)),
        None => Ok(None),
    }
}

} // verus!
