//! Which graphics API the engine renders with, whether accelerated import
//! supports it, and which importer variant serves it.
use vstd::prelude::*;
use crate::config::GodotRenderBackend;
use crate::text::same_text;

verus! {

/// The engine's rendering driver.
#[derive(Clone, Copy, Debug, PartialEq, Eq, Structural)]
pub enum RenderBackend {
    Vulkan,
    D3D12,
    Metal,
    OpenGL,
    Unknown,
}

/// The operating system the importer runs on.
#[derive(Clone, Copy, Debug, PartialEq, Eq, Structural)]
pub enum Platform {
    Windows,
    MacOs,
    Linux,
    Other,
}

/// The per-API importer variants.
#[derive(Clone, Copy, Debug, PartialEq, Eq, Structural)]
pub enum ImporterKind {
    Metal,
    Vulkan,
    D3D12,
}

/// Why accelerated import is or is not available.
#[derive(Clone, Copy, Debug, PartialEq, Eq, Structural)]
pub enum SupportReason {
    Supported,
    UnsupportedPlatform,
    UnsupportedBackend,
}

/// The driver names the engine reports, and the backend each one means.
pub open spec fn backend_of_name(name: Seq<char>) -> RenderBackend {
    if name == "vulkan"@ {
        RenderBackend::Vulkan
    } else if name == "d3d12"@ {
        RenderBackend::D3D12
    } else if name == "metal"@ {
        RenderBackend::Metal
    } else if name == "opengl3"@ || name == "opengl3_es"@ || name == "opengl3_angle"@ {
        RenderBackend::OpenGL
    } else {
        RenderBackend::Unknown
    }
}

/// The importer that serves `backend` on `platform`: Direct3D 12 and
/// Vulkan on Windows, Metal on macOS, Vulkan on Linux.
pub open spec fn importer_for(platform: Platform, backend: RenderBackend) -> Option<ImporterKind> {
    match (platform, backend) {
        (Platform::Windows, RenderBackend::D3D12) => Some(ImporterKind::D3D12),
        (Platform::Windows, RenderBackend::Vulkan) => Some(ImporterKind::Vulkan),
        (Platform::MacOs, RenderBackend::Metal) => Some(ImporterKind::Metal),
        (Platform::Linux, RenderBackend::Vulkan) => Some(ImporterKind::Vulkan),
        _ => None,
    }
}

impl RenderBackend {
    /// The backend behind a rendering-driver name reported by the engine.
    pub fn from_driver_name(name: &str) -> (r: RenderBackend)
        ensures
            r == backend_of_name(name@),
    {
        if same_text(name, "vulkan") {
            RenderBackend::Vulkan
        } else if same_text(name, "d3d12") {
            RenderBackend::D3D12
        } else if same_text(name, "metal") {
            RenderBackend::Metal
        } else if same_text(name, "opengl3") || same_text(name, "opengl3_es") || same_text(
            name,
            "opengl3_angle",
        ) {
            RenderBackend::OpenGL
        } else {
            RenderBackend::Unknown
        }
    }

    /// The importer variant for this backend on `platform`, if accelerated
    /// import supports it there.
    pub fn importer_kind(self, platform: Platform) -> (r: Option<ImporterKind>)
        ensures
            r == importer_for(platform, self),
    {
        match (platform, self) {
            (Platform::Windows, RenderBackend::D3D12) => Some(ImporterKind::D3D12),
            (Platform::Windows, RenderBackend::Vulkan) => Some(ImporterKind::Vulkan),
            (Platform::MacOs, RenderBackend::Metal) => Some(ImporterKind::Metal),
            (Platform::Linux, RenderBackend::Vulkan) => Some(ImporterKind::Vulkan),
            _ => None,
        }
    }

    /// Whether accelerated import supports this backend on `platform`.
    pub fn supports_accelerated_osr(self, platform: Platform) -> (r: bool)
        ensures
            r == importer_for(platform, self).is_some(),
    {
        self.importer_kind(platform).is_some()
    }

    /// Whether accelerated import is available, and why.
    pub fn support_diagnostic(self, platform: Platform) -> (r: SupportReason)
        ensures
            importer_for(platform, self) is Some ==> r == SupportReason::Supported,
            importer_for(platform, self) is None && platform == Platform::Other ==> r
                == SupportReason::UnsupportedPlatform,
            importer_for(platform, self) is None && platform != Platform::Other ==> r
                == SupportReason::UnsupportedBackend,
    {
        if self.importer_kind(platform).is_some() {
            SupportReason::Supported
        } else if platform == Platform::Other {
            SupportReason::UnsupportedPlatform
        } else {
            SupportReason::UnsupportedBackend
        }
    }

    /// The backend as reported to the browser; APIs the browser does not
    /// distinguish are `Unknown`.
    pub fn to_godot_backend(self) -> (r: GodotRenderBackend)
        ensures
            self == RenderBackend::Metal ==> r == GodotRenderBackend::Metal,
            self == RenderBackend::Vulkan ==> r == GodotRenderBackend::Vulkan,
            self == RenderBackend::D3D12 ==> r == GodotRenderBackend::Direct3D12,
            self == RenderBackend::OpenGL || self == RenderBackend::Unknown ==> r
                == GodotRenderBackend::Unknown,
    {
        match self {
            RenderBackend::Metal => GodotRenderBackend::Metal,
            RenderBackend::Vulkan => GodotRenderBackend::Vulkan,
            RenderBackend::D3D12 => GodotRenderBackend::Direct3D12,
            _ => GodotRenderBackend::Unknown,
        }
    }
}

impl SupportReason {
    /// A human-readable reason, for diagnostics.
    pub fn message(&self) -> (r: &'static str)
        ensures
            *self == SupportReason::Supported ==> r@ == "supported"@,
            *self == SupportReason::UnsupportedPlatform ==> r@
                == "accelerated import is not available on this platform"@,
            *self == SupportReason::UnsupportedBackend ==> r@
                == "the active rendering backend has no accelerated importer on this platform"@,
    {
        match self {
            SupportReason::Supported => "supported",
            SupportReason::UnsupportedPlatform => "accelerated import is not available on this platform",
            SupportReason::UnsupportedBackend => "the active rendering backend has no accelerated importer on this platform",
        }
    }
}

} // verus!
