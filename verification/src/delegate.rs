//! The application delegate's own state, and the Apple event that asks the
//! application to open a URL.

use vstd::prelude::*;

verus! {

/// The class of the Apple events that concern the internet.
pub const INTERNET_EVENT_CLASS: u32 = 0x4755524c;

/// The id of the Apple event that asks to open a URL.
pub const AE_GET_URL: u32 = 0x4755524c;

/// The keyword under which an Apple event holds its direct object.
pub const KEY_DIRECT_OBJECT: u32 = 0x2d2d2d2d;

/// How the application takes part in the dock and the menu bar.
#[derive(Clone, Copy, Debug, PartialEq, Eq, Hash, Structural)]
pub enum ActivationPolicy {
    /// It appears in the dock and may have a menu bar.
    Regular,
    /// It does not appear in the dock, but may be activated.
    Accessory,
    /// It does not appear in the dock and may not be activated.
    Prohibited,
}

/// What the application delegate keeps until the application has finished
/// launching.
#[derive(Clone, Copy, Debug, PartialEq, Eq, Structural)]
pub struct AuxDelegateState {
    /// Set only once the application has launched: set sooner, it leaves
    /// the menu bar unresponsive on some versions of the system.
    pub activation_policy: ActivationPolicy,
    /// Whether the application gets the standard application menu.
    pub create_default_menu: bool,
}

impl AuxDelegateState {
    /// The state of a new delegate: a regular application with the standard
    /// menu.
    pub fn new() -> (state: Self)
        ensures
            state == (AuxDelegateState {
                activation_policy: ActivationPolicy::Regular,
                create_default_menu: true,
            }),
    {
        AuxDelegateState { activation_policy: ActivationPolicy::Regular, create_default_menu: true }
    }
}

/// Whether an Apple event of the class `class` with the id `id` asks to
/// open a URL.
pub open spec fn is_url_event(class: u32, id: u32) -> bool {
    class == INTERNET_EVENT_CLASS && id == AE_GET_URL
}

/// Whether an Apple event of the class `class` with the id `id` asks to
/// open a URL: whether its direct object is to be read at all.
pub fn asks_for_url(class: u32, id: u32) -> (asks: bool)
    ensures
        asks == is_url_event(class, id),
{
    class == INTERNET_EVENT_CLASS && id == AE_GET_URL
}

/// The URL that an Apple event asks to open. `class` and `id` are those of
/// the event, and `url` is the text of its direct object, where it has one.
/// An event of another kind asks for none, whatever it holds.
pub fn parse_url(class: u32, id: u32, url: Option<String>) -> (asked: Option<String>)
    ensures
        asked == if is_url_event(class, id) {
            url
        } else {
            None
        },
{
    if !asks_for_url(class, id) {
        return None;
    }
    url
}

} // verus!
