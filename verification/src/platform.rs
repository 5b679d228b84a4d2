//! The platform that a host program was built for.

use vstd::prelude::*;

use crate::text::same_text;

verus! {

/// The operating system that the host program targets.
///
/// Platform-dependent decisions take it as an argument, so each of them can be
/// stated for every platform.
#[derive(Clone, Copy, Debug, PartialEq, Eq, Structural)]
#[non_exhaustive]
pub enum TargetPlatform {
    Windows,
    MacOs,
    /// An Apple system other than macOS.
    OtherApple,
    Linux,
    Android,
    Other,
}

impl TargetPlatform {
    /// The platform of an operating system name as the standard library spells it.
    pub open spec fn of_os_name(name: Seq<char>) -> TargetPlatform {
        if name == "windows"@ {
            TargetPlatform::Windows
        } else if name == "macos"@ {
            TargetPlatform::MacOs
        } else if name == "ios"@ || name == "tvos"@ || name == "watchos"@ || name == "visionos"@ {
            TargetPlatform::OtherApple
        } else if name == "linux"@ {
            TargetPlatform::Linux
        } else if name == "android"@ {
            TargetPlatform::Android
        } else {
            TargetPlatform::Other
        }
    }

    /// The platform of an operating system name as the standard library spells
    /// it, such as `windows`.
    pub fn from_os_name(name: &str) -> (r: TargetPlatform)
        ensures
            r == TargetPlatform::of_os_name(name@),
    {
        if same_text(name, "windows") {
            TargetPlatform::Windows
        } else if same_text(name, "macos") {
            TargetPlatform::MacOs
        } else if same_text(name, "ios") || same_text(name, "tvos") || same_text(name, "watchos")
            || same_text(name, "visionos") {
            TargetPlatform::OtherApple
        } else if same_text(name, "linux") {
            TargetPlatform::Linux
        } else if same_text(name, "android") {
            TargetPlatform::Android
        } else {
            TargetPlatform::Other
        }
    }

    /// Whether this is one of Apple's systems.
    pub open spec fn spec_is_apple(self) -> bool {
        self is MacOs || self is OtherApple
    }

    /// Whether this is one of Apple's systems.
    #[verifier::when_used_as_spec(spec_is_apple)]
    pub fn is_apple(self) -> (r: bool)
        ensures
            r == self.is_apple(),
    {
        match self {
            TargetPlatform::MacOs => true,
            TargetPlatform::OtherApple => true,
            _ => false,
        }
    }

    /// Whether a `wgpu` Vulkan device can exist here.
    pub open spec fn spec_has_vulkan(self) -> bool {
        self is Linux || self is Android || self is Windows
    }

    /// Whether a `wgpu` Vulkan device can exist here.
    #[verifier::when_used_as_spec(spec_has_vulkan)]
    pub fn has_vulkan(self) -> (r: bool)
        ensures
            r == self.has_vulkan(),
    {
        match self {
            TargetPlatform::Linux => true,
            TargetPlatform::Android => true,
            TargetPlatform::Windows => true,
            _ => false,
        }
    }
}

/// A platform is told by its name, and by no other: each platform has the names that
/// the standard library gives it, and every other name is that of no known platform.
pub proof fn platforms_are_told_by_name(name: &str, platform: TargetPlatform)
    requires
        call_ensures(TargetPlatform::from_os_name, (name,), platform),
    ensures
        platform is Windows <==> name@ == "windows"@,
        platform is MacOs <==> name@ == "macos"@,
        platform is OtherApple <==> name@ == "ios"@ || name@ == "tvos"@ || name@ == "watchos"@
            || name@ == "visionos"@,
        platform is Linux <==> name@ == "linux"@,
        platform is Android <==> name@ == "android"@,
{
    reveal_strlit("windows");
    reveal_strlit("macos");
    reveal_strlit("ios");
    reveal_strlit("tvos");
    reveal_strlit("watchos");
    reveal_strlit("visionos");
    reveal_strlit("linux");
    reveal_strlit("android");
    assert("windows"@[0] == 'w' && "watchos"@[0] == 'w');
    assert("windows"@[1] == 'i' && "watchos"@[1] == 'a');
    assert("macos"@[0] == 'm' && "linux"@[0] == 'l' && "android"@[0] == 'a');
}

/// Apple's systems are macOS and the other Apple platforms. Vulkan devices exist on
/// Linux, Android and Windows. No platform is among both.
pub proof fn platform_families(platform: TargetPlatform)
    ensures
        platform.is_apple() <==> platform == TargetPlatform::MacOs || platform
            == TargetPlatform::OtherApple,
        platform.has_vulkan() <==> platform == TargetPlatform::Linux || platform
            == TargetPlatform::Android || platform == TargetPlatform::Windows,
        !(platform.is_apple() && platform.has_vulkan()),
{
}

} // verus!
