//! The state the navigation bar is composed from: the connected devices, the
//! loading status of the app list, and the status of the self-update check.

use vstd::prelude::*;

verus! {

/// A connected device. The bar only lists, compares and displays devices, so a
/// device is carried here as the label under which it is listed and picked.
#[derive(Debug, PartialEq, Eq)]
pub struct Phone {
    pub name: String,
}

impl View for Phone {
    type V = Seq<char>;

    open spec fn view(&self) -> Seq<char> {
        self.name@
    }
}

impl Clone for Phone {
    fn clone(&self) -> (r: Self)
        ensures
            r == *self,
    {
        Phone { name: self.name.clone() }
    }
}

/// The labels of a sequence of devices, in the same order.
pub open spec fn phone_labels(phones: Seq<Phone>) -> Seq<Seq<char>> {
    phones.map_values(|p: Phone| p@)
}

/// The label of an optionally selected device.
pub open spec fn selected_label(selected_device: Option<Phone>) -> Option<Seq<char>> {
    match selected_device {
        Some(p) => Some(p@),
        None => None,
    }
}

/// Loading status of the app list. Only `FindingPhones` changes what the bar
/// shows; every other variant is rendered alike, and a `match` on this type
/// always carries a catch-all arm, so that variants added later fall back to
/// the same rendering instead of failing.
#[derive(Clone, Copy, Debug, PartialEq, Eq, Structural)]
pub enum ListLoadingState {
    FindingPhones,
    Loaded,
    Failed,
}

/// Status of the self-update check. Only `Updating` changes what the bar
/// shows; every other variant means "not currently updating".
#[derive(Clone, Copy, Debug, PartialEq, Eq, Structural)]
pub enum SelfUpdateStatus {
    Checking,
    Updating,
    Failed,
    Done,
}

/// A newer application release found by the self-update check, carried here as
/// the tag under which the release is published.
#[derive(Debug, PartialEq, Eq)]
pub struct ReleaseInfo {
    pub tag_name: String,
}

impl View for ReleaseInfo {
    type V = Seq<char>;

    open spec fn view(&self) -> Seq<char> {
        self.tag_name@
    }
}

impl Clone for ReleaseInfo {
    fn clone(&self) -> (r: Self)
        ensures
            r == *self,
    {
        ReleaseInfo { tag_name: self.tag_name.clone() }
    }
}

/// State of the self-update check: the newest known release, if any, and
/// whether an update is currently being applied.
#[derive(Debug, PartialEq, Eq)]
pub struct SelfUpdateState {
    pub latest_release: Option<ReleaseInfo>,
    pub status: SelfUpdateStatus,
}

/// Spec-level form of [`SelfUpdateState`]: the release reduced to its tag.
#[verifier::ext_equal]
pub struct SelfUpdateView {
    pub latest_release: Option<Seq<char>>,
    pub status: SelfUpdateStatus,
}

impl View for SelfUpdateState {
    type V = SelfUpdateView;

    open spec fn view(&self) -> SelfUpdateView {
        SelfUpdateView {
            latest_release: match self.latest_release {
                Some(release) => Some(release@),
                None => None,
            },
            status: self.status,
        }
    }
}

} // verus!
