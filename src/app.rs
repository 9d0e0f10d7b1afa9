use crate::event::{is_close_request, requests_close, WindowInput};
use crate::icon::{load_icon, made_from_encoded, IconError};
use std::collections::HashMap;
use vstd::prelude::*;
use winit::window::Icon;

verus! {

broadcast use vstd::std_specs::hash::group_hash_axioms;

#[verifier::external_type_specification]
#[verifier::external_body]
pub struct ExRuntime(tokio::runtime::Runtime);

/// Events posted to the application's own event loop, from outside the
/// windowing system. None is needed beyond waking the loop; Verus accepts no
/// enum without variants, so that one is spelled out.
#[derive(Debug, Clone, Copy, PartialEq, Eq, Structural)]
pub enum UserEvent {
    /// Wakes the event loop without any other effect.
    Wake,
}

/// A desktop application: its name, the runtime that its asynchronous set-up
/// runs on, its open windows and its icon.
///
/// Each open window is kept under the numeric form of its window identifier,
/// with the state `W` that goes with it (its graphics surface, device and
/// queue). Closing the last window ends the event loop.
pub struct Application<'a, W> {
    name: &'a str,
    /// Runtime used for asynchronous operations.
    rt: &'a tokio::runtime::Runtime,
    /// The open windows, by identifier.
    windows: HashMap<u64, W>,
    /// Icon of the application and of each of its windows.
    icon: Option<Icon>,
}

impl<'a, W> Application<'a, W> {
    /// The open windows, by identifier.
    pub closed spec fn window_map(&self) -> Map<u64, W> {
        self.windows@
    }

    /// The application's name, which is also the title of its windows.
    pub closed spec fn title(&self) -> Seq<char> {
        self.name@
    }

    /// The runtime that asynchronous work runs on.
    pub closed spec fn runtime_of(&self) -> tokio::runtime::Runtime {
        *self.rt
    }

    /// The icon, if one has been set.
    pub closed spec fn icon_of(&self) -> Option<Icon> {
        self.icon
    }

    /// A new application called `name`, with no window and no icon, whose
    /// asynchronous work runs on `rt`.
    pub fn new(name: &'a str, rt: &'a tokio::runtime::Runtime) -> (r: Self)
        ensures
            r.title() == name@,
            r.runtime_of() == *rt,
            r.window_map() == Map::<u64, W>::empty(),
            r.icon_of() is None,
    {
        Application { name, rt, icon: None, windows: HashMap::new() }
    }

    /// The application's name.
    pub fn name(&self) -> (r: &'a str)
        ensures
            r@ == self.title(),
    {
        self.name
    }

    /// The runtime that asynchronous work runs on.
    pub fn runtime(&self) -> (r: &'a tokio::runtime::Runtime)
        ensures
            *r == self.runtime_of(),
    {
        self.rt
    }

    /// The icon, if one has been set.
    pub fn icon(&self) -> (r: &Option<Icon>)
        ensures
            *r == self.icon_of(),
    {
        &self.icon
    }

    /// The open windows, by identifier.
    pub fn windows(&self) -> (r: &HashMap<u64, W>)
        ensures
            r@ == self.window_map(),
            r@.dom().finite(),
    {
        &self.windows
    }

    /// Sets the application's icon from a PNG image. The windows opened from
    /// then on carry it. Where the image cannot be made an icon, says why,
    /// and the application is dropped.
    pub fn with_icon(self, icon: &[u8]) -> (r: Result<Self, IconError>)
        ensures
            made_from_encoded(r, icon@),
            r matches Ok(app) ==> {
                &&& app.icon_of() is Some
                &&& app.title() == self.title()
                &&& app.runtime_of() == self.runtime_of()
                &&& app.window_map() == self.window_map()
                &&& app.window_map().dom().finite()
            },
    {
        match load_icon(icon) {
            Ok(loaded) => {
                let mut app = self;
                app.icon = Some(loaded);
                Ok(app)
            },
            Err(e) => Err(e),
        }
    }

    /// Records a newly opened window under its identifier `window_id`,
    /// replacing any window recorded under it before.
    pub fn add_window(&mut self, window_id: u64, state: W)
        ensures
            final(self).window_map() == old(self).window_map().insert(window_id, state),
            final(self).window_map().dom().finite(),
            final(self).title() == old(self).title(),
            final(self).runtime_of() == old(self).runtime_of(),
            final(self).icon_of() == old(self).icon_of(),
    {
        self.windows.insert(window_id, state);
    }

    /// Forgets the window `window_id`, and tells whether the event loop should
    /// now exit: it does once no window is left.
    pub fn close_window(&mut self, window_id: u64) -> (exit: bool)
        ensures
            final(self).window_map() == old(self).window_map().remove(window_id),
            final(self).window_map().dom().finite(),
            exit == final(self).window_map().is_empty(),
            final(self).title() == old(self).title(),
            final(self).runtime_of() == old(self).runtime_of(),
            final(self).icon_of() == old(self).icon_of(),
    {
        self.windows.remove(&window_id);
        self.windows.is_empty()
    }

    /// Reacts to `input`, reported for the window `window_id`: a close
    /// request or a press of Escape closes that window. Tells whether the
    /// event loop should now exit, which is only when that closed the last
    /// window.
    pub fn window_event(&mut self, window_id: u64, input: &WindowInput) -> (exit: bool)
        ensures
            requests_close(*input) ==> final(self).window_map() == old(self).window_map().remove(
                window_id,
            ),
            !requests_close(*input) ==> final(self).window_map() == old(self).window_map(),
            final(self).window_map().dom().finite(),
            exit == (requests_close(*input) && final(self).window_map().is_empty()),
            final(self).title() == old(self).title(),
            final(self).runtime_of() == old(self).runtime_of(),
            final(self).icon_of() == old(self).icon_of(),
    {
        if is_close_request(input) {
            self.close_window(window_id)
        } else {
            false
        }
    }
}

} // verus!
