//! The three parts that the application is assembled from, each known by a
//! name that no other part shares.

use crate::extent::Extent;
use crate::pipeline::{full_viewport, viewport_for};
use crate::resources::ViewportResource;
use vstd::prelude::*;

verus! {

/// The size that the window is opened with.
pub const WINDOW_WIDTH: u32 = 1280;

pub const WINDOW_HEIGHT: u32 = 800;

/// How the window is opened.
#[derive(Clone, Copy, Debug, PartialEq, Eq)]
pub struct WindowDescriptor {
    pub width: u32,
    pub height: u32,
    pub title: &'static str,
    pub fullscreen: bool,
}

/// The window of the application: of the opening size, titled, and not
/// full screen.
pub fn create_window() -> (window: WindowDescriptor)
    ensures
        window.width == WINDOW_WIDTH,
        window.height == WINDOW_HEIGHT,
        window.title@ == "Gamess9 Game"@,
        !window.fullscreen,
{
    WindowDescriptor {
        width: WINDOW_WIDTH,
        height: WINDOW_HEIGHT,
        title: "Gamess9 Game",
        fullscreen: false,
    }
}

/// The part that registers the components of entities.
#[derive(Clone, Copy, Debug, PartialEq, Eq, Structural)]
pub struct Components {}

/// The part that saves and loads scenes.
#[derive(Clone, Copy, Debug, PartialEq, Eq, Structural)]
pub struct SaveLoad {}

/// The part that draws.
#[derive(Clone, Copy, Debug, PartialEq, Eq, Structural)]
pub struct VulkanPlugin {}

impl Components {
    pub fn default() -> (plugin: Self)
        ensures
            plugin == (Components {  }),
    {
        Self {  }
    }

    pub fn name(&self) -> (name: &'static str)
        ensures
            name@ == "Components_system"@,
    {
        "Components_system"
    }

    /// The part may be added once only.
    pub fn is_unique(&self) -> (unique: bool)
        ensures
            unique,
    {
        true
    }
}

impl SaveLoad {
    pub fn default() -> (plugin: Self)
        ensures
            plugin == (SaveLoad {  }),
    {
        Self {  }
    }

    pub fn name(&self) -> (name: &'static str)
        ensures
            name@ == "Save_Load"@,
    {
        "Save_Load"
    }

    /// The part may be added once only.
    pub fn is_unique(&self) -> (unique: bool)
        ensures
            unique,
    {
        true
    }
}

impl VulkanPlugin {
    pub fn default() -> (plugin: Self)
        ensures
            plugin == (VulkanPlugin {  }),
    {
        Self {  }
    }

    /// The viewport that drawing starts with: the whole window as it is
    /// opened.
    pub fn build(&self) -> (resource: ViewportResource)
        ensures
            resource.viewport == full_viewport(
                Extent { width: WINDOW_WIDTH, height: WINDOW_HEIGHT },
            ),
    {
        ViewportResource {
            viewport: viewport_for(Extent { width: WINDOW_WIDTH, height: WINDOW_HEIGHT }),
        }
    }

    pub fn name(&self) -> (name: &'static str)
        ensures
            name@ == "Vulkan_plugin"@,
    {
        "Vulkan_plugin"
    }

    /// The part may be added once only.
    pub fn is_unique(&self) -> (unique: bool)
        ensures
            unique,
    {
        true
    }
}

} // verus!
