//! Input devices and the raw key transitions they report.
use crate::timestamp::Timestamp;
use vstd::prelude::*;

verus! {

/// A device that can say where it lives in the system's device namespace.
pub trait Device {
    /// The device's path, as a sequence of characters.
    spec fn device_path(&self) -> Seq<char>;

    fn path(&self) -> (r: &str)
        ensures
            r@ == self.device_path(),
    ;
}

/// A physical keyboard: its name and its path.
#[derive(Debug, PartialEq, Eq)]
pub struct Keyboard {
    path: String,
    name: String,
}

impl Clone for Keyboard {
    fn clone(&self) -> (r: Self)
        ensures
            r.name_view() == self.name_view(),
            r.path_view() == self.path_view(),
    {
        Keyboard { path: self.path.clone(), name: self.name.clone() }
    }
}

impl Keyboard {
    pub closed spec fn name_view(&self) -> Seq<char> {
        self.name@
    }

    pub closed spec fn path_view(&self) -> Seq<char> {
        self.path@
    }

    pub fn new(name: &str, path: &str) -> (r: Keyboard)
        ensures
            r.name_view() == name@,
            r.path_view() == path@,
    {
        Keyboard { name: name.to_string(), path: path.to_string() }
    }

    /// The keyboard's name.
    pub fn name(&self) -> (r: &str)
        ensures
            r@ == self.name_view(),
    {
        self.name.as_str()
    }

    /// A line naming the keyboard and its path:
    /// `Keyboard: <name> at: <path>`.
    pub fn describe(&self) -> (r: String)
        ensures
            r@ == keyboard_description(self.name_view(), self.path_view()),
    {
        let mut text = String::from_str("Keyboard: ");
        text.append(self.name.as_str());
        text.append(" at: ");
        text.append(self.path.as_str());
        text
    }
}

/// How a keyboard called `name` at `path` describes itself.
pub open spec fn keyboard_description(name: Seq<char>, path: Seq<char>) -> Seq<char> {
    "Keyboard: "@ + name + " at: "@ + path
}

impl Device for Keyboard {
    open spec fn device_path(&self) -> Seq<char> {
        self.path_view()
    }

    fn path(&self) -> (r: &str) {
        self.path.as_str()
    }
}

/// A key of a device: its code and the device itself.
pub struct Key<T: Device> {
    code: u16,
    device: T,
}

impl<T: Device> Key<T> {
    pub closed spec fn code_view(&self) -> u16 {
        self.code
    }

    pub closed spec fn device_view(&self) -> T {
        self.device
    }

    pub fn new(code: u16, device: T) -> (r: Self)
        ensures
            r.code_view() == code,
            r.device_view() == device,
    {
        Key { code, device }
    }
}

/// The status of a key at some moment.
#[derive(Debug, Clone, Copy, PartialEq, Eq, Structural)]
pub enum Status {
    Up,
    Down,
    Hold,
}

/// A key, its status, and when the status was observed.
pub struct InputFragment<T: Device> {
    key: Key<T>,
    status: Status,
    timestamp: Timestamp,
}

impl<T: Device> InputFragment<T> {
    pub closed spec fn key_view(&self) -> Key<T> {
        self.key
    }

    pub closed spec fn status_view(&self) -> Status {
        self.status
    }

    pub closed spec fn timestamp_view(&self) -> Timestamp {
        self.timestamp
    }

    pub fn new(key: Key<T>, status: Status, timestamp: Timestamp) -> (r: Self)
        ensures
            r.key_view() == key,
            r.status_view() == status,
            r.timestamp_view() == timestamp,
    {
        InputFragment { key, status, timestamp }
    }
}

/// A collection of borrowed fragments, in the order given.
pub struct FragmentBundle<'a, T: 'a + Device> {
    fragments: Vec<&'a InputFragment<T>>,
}

impl<'a, T: Device> FragmentBundle<'a, T> {
    pub closed spec fn fragments_view(&self) -> Seq<&'a InputFragment<T>> {
        self.fragments@
    }

    pub fn new(fragments: Vec<&'a InputFragment<T>>) -> (r: Self)
        ensures
            r.fragments_view() == fragments@,
    {
        FragmentBundle { fragments }
    }
}

impl<'a, T: Device> From<Vec<&'a InputFragment<T>>> for FragmentBundle<'a, T> {
    fn from(fragments: Vec<&'a InputFragment<T>>) -> (r: Self) {
        FragmentBundle { fragments }
    }
}

impl<'a, T: Device> vstd::std_specs::convert::FromSpecImpl<Vec<&'a InputFragment<T>>> for FragmentBundle<'a, T> {
    open spec fn obeys_from_spec() -> bool {
        true
    }

    closed spec fn from_spec(fragments: Vec<&'a InputFragment<T>>) -> Self {
        FragmentBundle { fragments }
    }
}

} // verus!
