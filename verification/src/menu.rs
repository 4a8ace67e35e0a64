//! The decisions behind the text menus: which operation a numeric choice
//! selects, and what a polling session does when its task ends or the user
//! interrupts.
//!
//! Reading input and printing the menus is the driver's business; the
//! mappings here are the part it must get right.

use vstd::prelude::*;

verus! {

/// What one main-menu choice selects: a one-shot fetch, a polling
/// operation run under the orchestrator, exit, or nothing.
#[derive(Clone, Copy, PartialEq, Eq, Structural, Debug)]
pub enum MenuAction {
    FetchProducts,
    FetchServerTime,
    PollOrderBook,
    FetchCandles,
    PollTrades,
    PollSpecificProduct,
    PollAllData,
    Exit,
    /// Anything else, including unparsable input read as zero: ask again.
    Invalid,
}

/// The main menu's mapping from the parsed numeric choice to the
/// operation it selects.
pub open spec fn menu_action_spec(choice: u8) -> MenuAction {
    if choice == 1 {
        MenuAction::FetchProducts
    } else if choice == 2 {
        MenuAction::FetchServerTime
    } else if choice == 3 {
        MenuAction::PollOrderBook
    } else if choice == 4 {
        MenuAction::FetchCandles
    } else if choice == 5 {
        MenuAction::PollTrades
    } else if choice == 6 {
        MenuAction::PollSpecificProduct
    } else if choice == 7 {
        MenuAction::PollAllData
    } else if choice == 8 {
        MenuAction::Exit
    } else {
        MenuAction::Invalid
    }
}

/// Resolve one main-menu choice. Input that failed to parse is handed in
/// as zero and comes back [`MenuAction::Invalid`].
pub fn menu_action(choice: u8) -> (a: MenuAction)
    ensures
        a == menu_action_spec(choice),
{
    if choice == 1 {
        MenuAction::FetchProducts
    } else if choice == 2 {
        MenuAction::FetchServerTime
    } else if choice == 3 {
        MenuAction::PollOrderBook
    } else if choice == 4 {
        MenuAction::FetchCandles
    } else if choice == 5 {
        MenuAction::PollTrades
    } else if choice == 6 {
        MenuAction::PollSpecificProduct
    } else if choice == 7 {
        MenuAction::PollAllData
    } else if choice == 8 {
        MenuAction::Exit
    } else {
        MenuAction::Invalid
    }
}

/// How the products listing is to be shown.
#[derive(Clone, Copy, PartialEq, Eq, Structural, Debug)]
pub enum ProductsView {
    Synthetic,
    Complete,
    /// Anything else: ask again.
    AskAgain,
}

/// The products sub-menu's mapping from the parsed choice to the view.
pub open spec fn products_view_spec(choice: u8) -> ProductsView {
    if choice == 1 {
        ProductsView::Synthetic
    } else if choice == 2 {
        ProductsView::Complete
    } else {
        ProductsView::AskAgain
    }
}

/// Resolve one products sub-menu choice.
pub fn products_view_choice(choice: u8) -> (v: ProductsView)
    ensures
        v == products_view_spec(choice),
{
    if choice == 1 {
        ProductsView::Synthetic
    } else if choice == 2 {
        ProductsView::Complete
    } else {
        ProductsView::AskAgain
    }
}

/// What a polling session observes while its task runs: the external
/// interrupt, or the task finishing on its own.
#[derive(Clone, Copy, PartialEq, Eq, Structural, Debug)]
pub enum SessionEvent {
    Interrupted,
    TaskFinished,
}

/// What the session must do next.
#[derive(Clone, Copy, PartialEq, Eq, Structural, Debug)]
pub enum SessionDirective {
    /// Fire the stop signal, wait for the task to exit, report its
    /// outcome, and leave the session.
    FireJoinAndExit,
    /// Report the finished task's outcome and start a fresh task — with a
    /// fresh broadcaster — in the same session.
    ReportAndRestart,
}

/// The session's decision table: only the external interrupt ends the
/// session; a task that returns by itself is reported and replaced.
pub open spec fn session_decision_spec(event: SessionEvent) -> SessionDirective {
    match event {
        SessionEvent::Interrupted => SessionDirective::FireJoinAndExit,
        SessionEvent::TaskFinished => SessionDirective::ReportAndRestart,
    }
}

/// Decide the session's next move on one event.
pub fn session_decision(event: SessionEvent) -> (d: SessionDirective)
    ensures
        d == session_decision_spec(event),
{
    match event {
        SessionEvent::Interrupted => SessionDirective::FireJoinAndExit,
        SessionEvent::TaskFinished => SessionDirective::ReportAndRestart,
    }
}

} // verus!
