//! The icons the window uses, and where their images are.
use vstd::prelude::*;

verus! {

/// An icon of the window.
#[derive(Debug, Clone, Copy, PartialEq, Eq, Structural)]
pub enum IconName {
    Archive,
    Delete,
    Plus,
    Trash,
    Minimize,
    Restore,
    Maximize,
    Close,
}

/// The path of each icon's image, under the assets directory.
pub open spec fn icon_path(icon: IconName) -> Seq<char> {
    match icon {
        IconName::Archive => "icons/archive.svg"@,
        IconName::Delete => "icons/delete.svg"@,
        IconName::Plus => "icons/plus.svg"@,
        IconName::Trash => "icons/trash.svg"@,
        IconName::Minimize => "icons/generic_minimize.svg"@,
        IconName::Restore => "icons/generic_restore.svg"@,
        IconName::Maximize => "icons/generic_maximize.svg"@,
        IconName::Close => "icons/generic_close.svg"@,
    }
}

impl IconName {
    /// The path of the icon's image.
    pub fn path(self) -> (p: &'static str)
        ensures
            p@ == icon_path(self),
    {
        match self {
            IconName::Archive => "icons/archive.svg",
            IconName::Delete => "icons/delete.svg",
            IconName::Plus => "icons/plus.svg",
            IconName::Trash => "icons/trash.svg",
            IconName::Minimize => "icons/generic_minimize.svg",
            IconName::Restore => "icons/generic_restore.svg",
            IconName::Maximize => "icons/generic_maximize.svg",
            IconName::Close => "icons/generic_close.svg",
        }
    }
}

} // verus!
