use vstd::prelude::*;

verus! {

/// The error that every call meets once the actor has ended.
pub open spec fn unavailable_spec() -> Seq<char> {
    "player service unavailable"@
}

/// The error of a bootstrap whose handshake was abandoned unanswered.
pub open spec fn init_abandoned_spec() -> Seq<char> {
    "player init channel error: handshake abandoned"@
}

fn unavailable() -> (r: String)
    ensures
        r@ == unavailable_spec(),
{
    String::from_str("player service unavailable")
}

/// The caller's result for a fire-and-forget command: success once the
/// message is enqueued, the uniform unavailability error when the actor is
/// gone.
pub fn command_result(delivered: bool) -> (r: Result<(), String>)
    ensures
        delivered ==> r is Ok,
        !delivered ==> (r matches Err(e) && e@ == unavailable_spec()),
{
    if delivered {
        Ok(())
    } else {
        Err(unavailable())
    }
}

/// The caller's result for a query, from whether its message was enqueued and
/// what arrived on its reply channel (`None` when the channel was abandoned).
pub fn query_result(delivered: bool, reply: Option<Result<u64, String>>) -> (r: Result<u64, String>)
    ensures
        !delivered || reply is None ==> (r matches Err(e) && e@ == unavailable_spec()),
        delivered && reply is Some ==> r == reply->Some_0,
{
    if !delivered {
        return Err(unavailable());
    }
    match reply {
        Some(outcome) => outcome,
        None => Err(unavailable()),
    }
}

/// The result of bootstrap, from the handshake's answer (`None` when the
/// actor's context ended without answering).
pub fn bootstrap_result(handshake: Option<Result<(), String>>) -> (r: Result<(), String>)
    ensures
        handshake matches Some(Ok(_)) <==> r is Ok,
        handshake matches Some(Err(m)) ==> r == Err::<(), String>(m),
        handshake is None ==> (r matches Err(e) && e@ == init_abandoned_spec()),
{
    match handshake {
        Some(Ok(())) => Ok(()),
        Some(Err(m)) => Err(m),
        None => Err(String::from_str("player init channel error: handshake abandoned")),
    }
}

} // verus!
