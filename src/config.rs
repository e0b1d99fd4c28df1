//! Browser-process configuration handed from the engine side to the
//! browser: render backend, debugging, security, GPU selection, network and
//! cache settings, and extra command-line switches.
use vstd::prelude::*;
use crate::text::{decimal, decimal_string};

verus! {

/// The engine's active graphics API, as reported to the browser.
#[derive(Clone, Copy, Debug, Default, PartialEq, Eq, Structural)]
pub enum GodotRenderBackend {
    #[default]
    Unknown,
    Direct3D12,
    Metal,
    Vulkan,
}

/// Security switches that weaken the browser's defaults; all off unless
/// the project asks for them.
#[derive(Clone, Copy, Debug, Default, PartialEq, Eq, Structural)]
pub struct SecurityConfig {
    /// Allow loading insecure (HTTP) content in HTTPS pages.
    pub allow_insecure_content: bool,
    /// Ignore SSL/TLS certificate errors.
    pub ignore_certificate_errors: bool,
    /// Disable web security (CORS, same-origin policy).
    pub disable_web_security: bool,
}

impl SecurityConfig {
    /// The secure defaults: every switch off.
    pub fn secure() -> (c: SecurityConfig)
        ensures
            !c.allow_insecure_content && !c.ignore_certificate_errors && !c.disable_web_security,
    {
        SecurityConfig {
            allow_insecure_content: false,
            ignore_certificate_errors: false,
            disable_web_security: false,
        }
    }
}

/// GPU vendor and device identifiers, passed to the browser's processes so
/// that they use the same GPU as the engine.
#[derive(Clone, Copy, Debug, Default, PartialEq, Eq, Structural)]
pub struct GpuDeviceIds {
    pub vendor_id: u32,
    pub device_id: u32,
}

impl GpuDeviceIds {
    pub fn new(vendor_id: u32, device_id: u32) -> (r: GpuDeviceIds)
        ensures
            r.vendor_id == vendor_id,
            r.device_id == device_id,
    {
        GpuDeviceIds { vendor_id, device_id }
    }

    /// The vendor identifier in decimal, for a command-line switch value.
    pub fn to_vendor_arg(&self) -> (r: String)
        ensures
            r@ == decimal(self.vendor_id as nat),
    {
        decimal_string(self.vendor_id as u64)
    }

    /// The device identifier in decimal, for a command-line switch value.
    pub fn to_device_arg(&self) -> (r: String)
        ensures
            r@ == decimal(self.device_id as nat),
    {
        decimal_string(self.device_id as u64)
    }
}

/// The remote-debugging port used unless one is configured.
pub const DEFAULT_REMOTE_DEBUGGING_PORT: u16 = 9229;

/// The settings of an `OsrApp` or an `OsrAppBuilder`.
pub struct AppSettings {
    pub godot_backend: GodotRenderBackend,
    pub enable_remote_debugging: bool,
    pub remote_debugging_port: u16,
    pub security_config: SecurityConfig,
    pub gpu_device_ids: Option<GpuDeviceIds>,
    pub user_agent: Seq<char>,
    pub proxy_server: Seq<char>,
    pub proxy_bypass_list: Seq<char>,
    pub cache_size_mb: i32,
    pub custom_switches: Seq<Seq<char>>,
}

/// The settings before anything is configured.
pub open spec fn default_settings() -> AppSettings {
    AppSettings {
        godot_backend: GodotRenderBackend::Unknown,
        enable_remote_debugging: false,
        remote_debugging_port: DEFAULT_REMOTE_DEBUGGING_PORT,
        security_config: SecurityConfig {
            allow_insecure_content: false,
            ignore_certificate_errors: false,
            disable_web_security: false,
        },
        gpu_device_ids: None,
        user_agent: Seq::empty(),
        proxy_server: Seq::empty(),
        proxy_bypass_list: Seq::empty(),
        cache_size_mb: 0,
        custom_switches: Seq::empty(),
    }
}

pub open spec fn strings_view(v: Seq<String>) -> Seq<Seq<char>> {
    v.map_values(|s: String| s@)
}

/// The browser application's configuration. An empty user agent, proxy
/// server or bypass list means the browser's default; a cache size of 0
/// means the browser's default limit.
#[derive(Clone, Debug)]
pub struct OsrApp {
    godot_backend: GodotRenderBackend,
    enable_remote_debugging: bool,
    remote_debugging_port: u16,
    security_config: SecurityConfig,
    gpu_device_ids: Option<GpuDeviceIds>,
    user_agent: String,
    proxy_server: String,
    proxy_bypass_list: String,
    cache_size_mb: i32,
    custom_switches: Vec<String>,
}

impl View for OsrApp {
    type V = AppSettings;

    closed spec fn view(&self) -> AppSettings {
        AppSettings {
            godot_backend: self.godot_backend,
            enable_remote_debugging: self.enable_remote_debugging,
            remote_debugging_port: self.remote_debugging_port,
            security_config: self.security_config,
            gpu_device_ids: self.gpu_device_ids,
            user_agent: self.user_agent@,
            proxy_server: self.proxy_server@,
            proxy_bypass_list: self.proxy_bypass_list@,
            cache_size_mb: self.cache_size_mb,
            custom_switches: strings_view(self.custom_switches@),
        }
    }
}

impl OsrApp {
    pub fn new() -> (r: OsrApp)
        ensures
            r@ == default_settings(),
    {
        let r = OsrApp {
            godot_backend: GodotRenderBackend::Unknown,
            enable_remote_debugging: false,
            remote_debugging_port: DEFAULT_REMOTE_DEBUGGING_PORT,
            security_config: SecurityConfig::secure(),
            gpu_device_ids: None,
            user_agent: String::new(),
            proxy_server: String::new(),
            proxy_bypass_list: String::new(),
            cache_size_mb: 0,
            custom_switches: Vec::new(),
        };
        assert(strings_view(r.custom_switches@) =~= Seq::<Seq<char>>::empty());
        r
    }

    pub fn builder() -> (r: OsrAppBuilder)
        ensures
            r@ == default_settings(),
    {
        OsrAppBuilder::new()
    }

    pub fn godot_backend(&self) -> (r: GodotRenderBackend)
        ensures
            r == self@.godot_backend,
    {
        self.godot_backend
    }

    pub fn enable_remote_debugging(&self) -> (r: bool)
        ensures
            r == self@.enable_remote_debugging,
    {
        self.enable_remote_debugging
    }

    pub fn remote_debugging_port(&self) -> (r: u16)
        ensures
            r == self@.remote_debugging_port,
    {
        self.remote_debugging_port
    }

    pub fn security_config(&self) -> (r: &SecurityConfig)
        ensures
            *r == self@.security_config,
    {
        &self.security_config
    }

    pub fn gpu_device_ids(&self) -> (r: Option<GpuDeviceIds>)
        ensures
            r == self@.gpu_device_ids,
    {
        self.gpu_device_ids
    }

    pub fn user_agent(&self) -> (r: &str)
        ensures
            r@ == self@.user_agent,
    {
        self.user_agent.as_str()
    }

    pub fn proxy_server(&self) -> (r: &str)
        ensures
            r@ == self@.proxy_server,
    {
        self.proxy_server.as_str()
    }

    pub fn proxy_bypass_list(&self) -> (r: &str)
        ensures
            r@ == self@.proxy_bypass_list,
    {
        self.proxy_bypass_list.as_str()
    }

    pub fn cache_size_mb(&self) -> (r: i32)
        ensures
            r == self@.cache_size_mb,
    {
        self.cache_size_mb
    }

    pub fn custom_switches(&self) -> (r: &[String])
        ensures
            strings_view(r@) == self@.custom_switches,
    {
        self.custom_switches.as_slice()
    }
}

impl Default for OsrApp {
    fn default() -> (r: OsrApp)
        ensures
            r@ == default_settings(),
    {
        OsrApp::new()
    }
}

/// Builds an `OsrApp` one setting at a time; each setter changes its own
/// setting and nothing else.
#[derive(Debug)]
pub struct OsrAppBuilder {
    godot_backend: GodotRenderBackend,
    enable_remote_debugging: bool,
    remote_debugging_port: u16,
    security_config: SecurityConfig,
    gpu_device_ids: Option<GpuDeviceIds>,
    user_agent: String,
    proxy_server: String,
    proxy_bypass_list: String,
    cache_size_mb: i32,
    custom_switches: Vec<String>,
}

impl View for OsrAppBuilder {
    type V = AppSettings;

    closed spec fn view(&self) -> AppSettings {
        AppSettings {
            godot_backend: self.godot_backend,
            enable_remote_debugging: self.enable_remote_debugging,
            remote_debugging_port: self.remote_debugging_port,
            security_config: self.security_config,
            gpu_device_ids: self.gpu_device_ids,
            user_agent: self.user_agent@,
            proxy_server: self.proxy_server@,
            proxy_bypass_list: self.proxy_bypass_list@,
            cache_size_mb: self.cache_size_mb,
            custom_switches: strings_view(self.custom_switches@),
        }
    }
}

impl OsrAppBuilder {
    pub fn new() -> (r: OsrAppBuilder)
        ensures
            r@ == default_settings(),
    {
        let r = OsrAppBuilder {
            godot_backend: GodotRenderBackend::Unknown,
            enable_remote_debugging: false,
            remote_debugging_port: DEFAULT_REMOTE_DEBUGGING_PORT,
            security_config: SecurityConfig::secure(),
            gpu_device_ids: None,
            user_agent: String::new(),
            proxy_server: String::new(),
            proxy_bypass_list: String::new(),
            cache_size_mb: 0,
            custom_switches: Vec::new(),
        };
        assert(strings_view(r.custom_switches@) =~= Seq::<Seq<char>>::empty());
        r
    }

    pub fn godot_backend(self, godot_backend: GodotRenderBackend) -> (r: OsrAppBuilder)
        ensures
            r@ == (AppSettings { godot_backend, ..self@ }),
    {
        OsrAppBuilder { godot_backend, ..self }
    }

    pub fn remote_debugging(self, enable_remote_debugging: bool) -> (r: OsrAppBuilder)
        ensures
            r@ == (AppSettings { enable_remote_debugging, ..self@ }),
    {
        OsrAppBuilder { enable_remote_debugging, ..self }
    }

    pub fn remote_debugging_port(self, port: u16) -> (r: OsrAppBuilder)
        ensures
            r@ == (AppSettings { remote_debugging_port: port, ..self@ }),
    {
        OsrAppBuilder { remote_debugging_port: port, ..self }
    }

    pub fn security_config(self, security_config: SecurityConfig) -> (r: OsrAppBuilder)
        ensures
            r@ == (AppSettings { security_config, ..self@ }),
    {
        OsrAppBuilder { security_config, ..self }
    }

    pub fn gpu_device_ids(self, vendor_id: u32, device_id: u32) -> (r: OsrAppBuilder)
        ensures
            r@ == (AppSettings {
                gpu_device_ids: Some(GpuDeviceIds { vendor_id, device_id }),
                ..self@
            }),
    {
        OsrAppBuilder { gpu_device_ids: Some(GpuDeviceIds::new(vendor_id, device_id)), ..self }
    }

    pub fn user_agent(self, user_agent: String) -> (r: OsrAppBuilder)
        ensures
            r@ == (AppSettings { user_agent: user_agent@, ..self@ }),
    {
        OsrAppBuilder { user_agent, ..self }
    }

    pub fn proxy_server(self, proxy_server: String) -> (r: OsrAppBuilder)
        ensures
            r@ == (AppSettings { proxy_server: proxy_server@, ..self@ }),
    {
        OsrAppBuilder { proxy_server, ..self }
    }

    pub fn proxy_bypass_list(self, proxy_bypass_list: String) -> (r: OsrAppBuilder)
        ensures
            r@ == (AppSettings { proxy_bypass_list: proxy_bypass_list@, ..self@ }),
    {
        OsrAppBuilder { proxy_bypass_list, ..self }
    }

    pub fn cache_size_mb(self, cache_size_mb: i32) -> (r: OsrAppBuilder)
        ensures
            r@ == (AppSettings { cache_size_mb, ..self@ }),
    {
        OsrAppBuilder { cache_size_mb, ..self }
    }

    pub fn custom_switches(self, custom_switches: Vec<String>) -> (r: OsrAppBuilder)
        ensures
            r@ == (AppSettings { custom_switches: strings_view(custom_switches@), ..self@ }),
    {
        OsrAppBuilder { custom_switches, ..self }
    }

    /// The configured application.
    pub fn build(self) -> (r: OsrApp)
        ensures
            r@ == self@,
    {
        OsrApp {
            godot_backend: self.godot_backend,
            enable_remote_debugging: self.enable_remote_debugging,
            remote_debugging_port: self.remote_debugging_port,
            security_config: self.security_config,
            gpu_device_ids: self.gpu_device_ids,
            user_agent: self.user_agent,
            proxy_server: self.proxy_server,
            proxy_bypass_list: self.proxy_bypass_list,
            cache_size_mb: self.cache_size_mb,
            custom_switches: self.custom_switches,
        }
    }
}

impl Default for OsrAppBuilder {
    fn default() -> (r: OsrAppBuilder)
        ensures
            r@ == default_settings(),
    {
        OsrAppBuilder::new()
    }
}

} // verus!
