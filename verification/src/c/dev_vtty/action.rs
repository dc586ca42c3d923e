//! What a console asks its host to do.
//!
//! The console layer never touches a handle. Each operation returns, in
//! order, the actions that the host performs on its behalf.

use vstd::prelude::*;

verus! {

/// One thing for the host to do.
#[derive(Debug, Clone, PartialEq, Eq)]
pub enum VttyAction {
    /// Write `data` to `fd`. A failure is reported and otherwise ignored.
    Write { fd: i32, data: Vec<u8> },
    /// Send `data` to the client `fd`. Where the send fails, the host tells
    /// the console that the client is lost.
    Send { fd: i32, data: Vec<u8> },
    /// Force what was written to `fd` out to the device.
    Sync { fd: i32 },
    /// Close `fd`.
    Close { fd: i32 },
    /// Shut the connection `fd` down in both directions and close it.
    Hangup { fd: i32 },
    /// Hand `c` to the remote control of the console.
    Remote { c: u8 },
    /// Run the read notification `notifier` of the console.
    Notify { notifier: usize },
}

/// An action as a mathematical value.
pub enum VttyActionView {
    Write { fd: i32, data: Seq<u8> },
    Send { fd: i32, data: Seq<u8> },
    Sync { fd: i32 },
    Close { fd: i32 },
    Hangup { fd: i32 },
    Remote { c: u8 },
    Notify { notifier: usize },
}

impl View for VttyAction {
    type V = VttyActionView;

    open spec fn view(&self) -> VttyActionView {
        match *self {
            VttyAction::Write { fd, data } => VttyActionView::Write { fd, data: data@ },
            VttyAction::Send { fd, data } => VttyActionView::Send { fd, data: data@ },
            VttyAction::Sync { fd } => VttyActionView::Sync { fd },
            VttyAction::Close { fd } => VttyActionView::Close { fd },
            VttyAction::Hangup { fd } => VttyActionView::Hangup { fd },
            VttyAction::Remote { c } => VttyActionView::Remote { c },
            VttyAction::Notify { notifier } => VttyActionView::Notify { notifier },
        }
    }
}

/// A list of actions as a sequence of mathematical values.
pub open spec fn plan_of(actions: Seq<VttyAction>) -> Seq<VttyActionView> {
    actions.map_values(|a: VttyAction| a@)
}

/// Appends one action to a plan.
pub(crate) fn plan_push(plan: &mut Vec<VttyAction>, action: VttyAction)
    ensures
        plan_of(final(plan)@) == plan_of(old(plan)@).push(action@),
{
    plan.push(action);
    assert(plan_of(plan@) =~= plan_of(old(plan)@).push(action@));
}

/// Appends a plan to a plan.
pub(crate) fn plan_append(plan: &mut Vec<VttyAction>, more: Vec<VttyAction>)
    ensures
        plan_of(final(plan)@) == plan_of(old(plan)@) + plan_of(more@),
{
    let mut more = more;
    let ghost tail = more@;
    plan.append(&mut more);
    assert(plan_of(plan@) =~= plan_of(old(plan)@) + plan_of(tail));
}

} // verus!
