//! The whole probe: top bar and centre view, advanced one frame at a time.

use crate::bar::{bar_step, BarInput, TopBar};
use crate::center::{view_step, Scene, View};
use crate::fetch::Dispatch;
use crate::request::Method;
use crate::resource::{classified, Resource};
use vstd::prelude::*;
use vstd::view::View as _;

verus! {

/// What a frame shows beneath the bar.
pub enum Screen {
    /// A request is outstanding: a loading indicator, and not the last result.
    Loading,
    /// The last result, drawn as this scene.
    Result(Scene),
}

/// What one frame decided: the request to send, if any, and what to show.
pub struct Tick {
    pub dispatch: Option<Dispatch>,
    pub screen: Screen,
}

/// The probe: the top bar with its fetch controller, and the centre view
/// with the last result.
pub struct WebApp {
    pub bar: TopBar,
    pub view: View,
}

impl Default for WebApp {
    /// The probe as it starts: a GET of a sample URL filled in, nothing
    /// outstanding, no result.
    fn default() -> (app: WebApp)
        ensures
            app.bar.url@ == "https://raw.githubusercontent.com/emilk/egui/master/README.md"@,
            app.bar.method == Method::Get,
            app.bar.request_body@.len() == 0,
            !app.bar.in_progress@.busy(),
            app.bar.in_progress@.issued == 0,
            app.view.result is None,
            app.view.manager@ is None,
    {
        let mut bar = TopBar::default();
        bar.url = "https://raw.githubusercontent.com/emilk/egui/master/README.md".to_owned();
        WebApp { bar, view: View::default() }
    }
}

impl WebApp {
    /// The application's name.
    pub fn name(&self) -> (name: &'static str)
        ensures
            name@ == "Web0"@,
    {
        "Web0"
    }

    /// Whether a request is outstanding.
    pub fn is_busy(&self) -> (busy: bool)
        ensures
            busy == self.bar.in_progress@.busy(),
    {
        self.bar.in_progress.is_busy()
    }

    /// Polls the controller while it is busy. An outcome that has arrived is
    /// classified and becomes the last result, and the controller is idle;
    /// otherwise nothing changes.
    pub fn settle(&mut self)
        ensures
            final(self).bar.in_progress@ == old(self).bar.in_progress@.polled().0,
            match old(self).bar.in_progress@.polled().1 {
                Some(outcome) => final(self).view.result matches Some(result) && classified(
                    outcome,
                    result,
                ),
                None => final(self).view.result == old(self).view.result,
            },
            final(self).bar.url == old(self).bar.url,
            final(self).bar.method == old(self).bar.method,
            final(self).bar.request_body == old(self).bar.request_body,
            final(self).view.manager == old(self).view.manager,
    {
        if self.bar.in_progress.is_busy() {
            match self.bar.in_progress.poll() {
                Some(outcome) => {
                    self.view.result = Some(Resource::from_response(outcome));
                },
                None => {},
            }
        }
    }

    /// One frame. First the controller is polled and an arrived outcome
    /// becomes the last result. Then the bar reacts to the user's input and
    /// may start a request. Last, the screen is decided: the loading
    /// indicator while a request is outstanding, else the scene for the last
    /// result.
    pub fn update(
        &mut self,
        input: &BarInput,
        ledger: &mut epi::backend::TexAllocationData,
    ) -> (tick: Tick)
        requires
            old(self).bar.in_progress@.issued < u64::MAX,
        ensures
            match old(self).bar.in_progress@.polled().1 {
                Some(outcome) => final(self).view.result matches Some(result) && classified(
                    outcome,
                    result,
                ),
                None => final(self).view.result == old(self).view.result,
            },
            bar_step(
                old(self).bar.url@,
                old(self).bar.method,
                old(self).bar.request_body@,
                old(self).bar.in_progress@.polled().0,
                *input,
                final(self).bar,
                tick.dispatch,
            ),
            if final(self).bar.in_progress@.busy() {
                &&& tick.screen == Screen::Loading
                &&& final(self).view.manager == old(self).view.manager
                &&& *final(ledger) == *old(ledger)
            } else {
                &&& tick.screen matches Screen::Result(scene)
                &&& view_step(
                    final(self).view.result,
                    old(self).view.manager@,
                    *old(ledger),
                    final(self).view.manager@,
                    *final(ledger),
                    scene,
                )
            },
    {
        self.settle();
        let dispatch = self.bar.show(input);
        let screen = if self.bar.in_progress.is_busy() {
            Screen::Loading
        } else {
            Screen::Result(self.view.show(ledger))
        };
        Tick { dispatch, screen }
    }
}

} // verus!
