//! Applications that run on the mesh.

use vstd::prelude::*;
use crate::keys::AppKey;
use crate::star::{StarKey, StarKeyView};

verus! {

/// The mathematical value of a [`AppKind`].
pub ghost struct AppKindView {
    pub name: Seq<char>,
}

/// The kind of an application, by name.
#[derive(Debug, PartialEq, Eq, Hash)]
pub struct AppKind {
    pub name: String,
}

impl View for AppKind {
    type V = AppKindView;

    open spec fn view(&self) -> AppKindView {
        AppKindView {
            name: self.name@,
        }
    }
}

impl DeepView for AppKind {
    type V = AppKindView;

    open spec fn deep_view(&self) -> AppKindView {
        self@
    }
}

impl Clone for AppKind {
    fn clone(&self) -> (r: Self)
        ensures
            r@ == self@,
    {
        let r = AppKind {
            name: self.name.clone(),
        };
        r
    }
}

/// The mathematical value of a [`AppInfo`].
pub ghost struct AppInfoView {
    pub key: AppKey,
    pub kind: AppKindView,
}

/// An application and its kind.
#[derive(Debug, PartialEq, Eq, Hash)]
pub struct AppInfo {
    pub key: AppKey,
    pub kind: AppKind,
}

impl View for AppInfo {
    type V = AppInfoView;

    open spec fn view(&self) -> AppInfoView {
        AppInfoView {
            key: self.key,
            kind: self.kind@,
        }
    }
}

impl DeepView for AppInfo {
    type V = AppInfoView;

    open spec fn deep_view(&self) -> AppInfoView {
        self@
    }
}

impl Clone for AppInfo {
    fn clone(&self) -> (r: Self)
        ensures
            r@ == self@,
    {
        let r = AppInfo {
            key: self.key,
            kind: self.kind.clone(),
        };
        r
    }
}

/// The mathematical value of a [`AppLocation`].
pub ghost struct AppLocationView {
    pub app: AppKey,
    pub supervisor: StarKeyView,
}

/// The supervisor star that looks after an application.
#[derive(Debug, PartialEq, Eq, Hash)]
pub struct AppLocation {
    pub app: AppKey,
    pub supervisor: StarKey,
}

impl View for AppLocation {
    type V = AppLocationView;

    open spec fn view(&self) -> AppLocationView {
        AppLocationView {
            app: self.app,
            supervisor: self.supervisor@,
        }
    }
}

impl DeepView for AppLocation {
    type V = AppLocationView;

    open spec fn deep_view(&self) -> AppLocationView {
        self@
    }
}

impl Clone for AppLocation {
    fn clone(&self) -> (r: Self)
        ensures
            r@ == self@,
    {
        let r = AppLocation {
            app: self.app,
            supervisor: self.supervisor.clone(),
        };
        r
    }
}

} // verus!
