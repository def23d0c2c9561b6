use vstd::prelude::*;

verus! {

/// What the driver reported about one compile or link step, collapsed to
/// the value the renderer acts on.
///
/// `status` is the boolean the driver returned for `COMPILE_STATUS` or
/// `LINK_STATUS` (`None` when the reply was not a boolean), `info_log` the
/// driver's log. The step succeeds exactly when the status is `Some(true)`;
/// otherwise its error is the log, or the empty string when there is none.
pub fn check_status(status: Option<bool>, info_log: Option<String>) -> (r: Result<(), String>)
    ensures
        (r is Ok) <==> (status == Some(true)),
        r matches Err(e) ==> e@ == match info_log {
            Some(log) => log@,
            None => Seq::<char>::empty(),
        },
{
    let ok = match status {
        Some(b) => b,
        None => false,
    };
    if ok {
        Ok(())
    } else {
        match info_log {
            Some(log) => Err(log),
            None => Err(String::new()),
        }
    }
}

} // verus!
