//! WinPE optional components from the Windows ADK: the catalog, the default
//! and required selections, and the order in which a selection installs.

use vstd::prelude::*;
use crate::text::{
    contains, lemma_strings_of_push, lines, push_str, seqs_of, split, split_char, split_lines,
    str_contains, string_from, strings_of, to_chars, trim, trim_chars, chars_contain,
};
use crate::tools::{join, join_path};
use crate::updater::chars_equal;

verus! {

/// Categories for organizing packages in the interface.
#[derive(Debug, Clone, Copy, PartialEq, Eq, Structural)]
pub enum PackageCategory {
    /// Core functionality (WMI, Scripting, etc.)
    Core,
    /// PowerShell and scripting
    Scripting,
    /// Network support
    Network,
    /// Storage and disk management
    Storage,
    /// Security features (BitLocker, etc.)
    Security,
    /// Recovery and diagnostics
    Recovery,
    /// Windows Setup and deployment
    Setup,
    /// Font support (international)
    Fonts,
    /// Input devices and peripherals
    Input,
}

pub open spec fn category_display_name(c: PackageCategory) -> Seq<char> {
    match c {
        PackageCategory::Core => "Core Components"@,
        PackageCategory::Scripting => "Scripting & Automation"@,
        PackageCategory::Network => "Network Support"@,
        PackageCategory::Storage => "Storage & Disk"@,
        PackageCategory::Security => "Security"@,
        PackageCategory::Recovery => "Recovery & Diagnostics"@,
        PackageCategory::Setup => "Setup & Deployment"@,
        PackageCategory::Fonts => "Font Support"@,
        PackageCategory::Input => "Input & Peripherals"@,
    }
}

pub open spec fn category_color(c: PackageCategory) -> Seq<char> {
    match c {
        PackageCategory::Core => "#2DD4BF"@,
        PackageCategory::Scripting => "#3B82F6"@,
        PackageCategory::Network => "#22C55E"@,
        PackageCategory::Storage => "#F97316"@,
        PackageCategory::Security => "#EF4444"@,
        PackageCategory::Recovery => "#A855F7"@,
        PackageCategory::Setup => "#EC4899"@,
        PackageCategory::Fonts => "#6366F1"@,
        PackageCategory::Input => "#14B8A6"@,
    }
}

impl PackageCategory {
    /// The category's heading in the interface.
    pub fn display_name(&self) -> (r: &'static str)
        ensures
            r@ == category_display_name(*self),
    {
        match self {
            PackageCategory::Core => "Core Components",
            PackageCategory::Scripting => "Scripting & Automation",
            PackageCategory::Network => "Network Support",
            PackageCategory::Storage => "Storage & Disk",
            PackageCategory::Security => "Security",
            PackageCategory::Recovery => "Recovery & Diagnostics",
            PackageCategory::Setup => "Setup & Deployment",
            PackageCategory::Fonts => "Font Support",
            PackageCategory::Input => "Input & Peripherals",
        }
    }

    /// The category's accent color.
    pub fn color(&self) -> (r: &'static str)
        ensures
            r@ == category_color(*self),
    {
        match self {
            PackageCategory::Core => "#2DD4BF",
            PackageCategory::Scripting => "#3B82F6",
            PackageCategory::Network => "#22C55E",
            PackageCategory::Storage => "#F97316",
            PackageCategory::Security => "#EF4444",
            PackageCategory::Recovery => "#A855F7",
            PackageCategory::Setup => "#EC4899",
            PackageCategory::Fonts => "#6366F1",
            PackageCategory::Input => "#14B8A6",
        }
    }
}

/// A WinPE optional component package.
#[derive(Debug, Clone, Copy)]
pub struct AdkPackage {
    /// Internal identifier.
    pub id: &'static str,
    /// Name shown in the interface.
    pub display_name: &'static str,
    /// What the package provides.
    pub description: &'static str,
    /// Base file name of the package (`<name>.cab`, `<name>_en-us.cab`).
    pub package_name: &'static str,
    /// Identifiers of the packages this one needs first.
    pub dependencies: &'static [&'static str],
    /// Selected unless the user deselects it.
    pub default_enabled: bool,
    /// Grouping in the interface.
    pub category: PackageCategory,
    /// Needed for this program to work in the built image.
    pub required_for_app: bool,
}

/// The dependency identifiers of a package, as character sequences.
pub open spec fn package_deps(p: AdkPackage) -> Seq<Seq<char>> {
    p.dependencies@.map_values(|d: &str| d@)
}

} // verus!

verus! {

/// A package's fields as mathematical values.
#[verifier::ext_equal]
pub struct PackageView {
    pub id: Seq<char>,
    pub display_name: Seq<char>,
    pub description: Seq<char>,
    pub package_name: Seq<char>,
    pub dependencies: Seq<Seq<char>>,
    pub default_enabled: bool,
    pub category: PackageCategory,
    pub required_for_app: bool,
}

impl View for AdkPackage {
    type V = PackageView;

    open spec fn view(&self) -> PackageView {
        PackageView {
            id: self.id@,
            display_name: self.display_name@,
            description: self.description@,
            package_name: self.package_name@,
            dependencies: package_deps(*self),
            default_enabled: self.default_enabled,
            category: self.category,
            required_for_app: self.required_for_app,
        }
    }
}

/// The views of a list of packages.
pub open spec fn package_views(ps: Seq<AdkPackage>) -> Seq<PackageView> {
    ps.map_values(|p: AdkPackage| p@)
}

/// The catalog of optional components this program offers.
#[verifier::opaque]
pub open spec fn catalog() -> Seq<PackageView> {
    seq![        PackageView {
            id: "wmi"@,
            display_name: "WMI"@,
            description: "Windows Management Instrumentation - Required for system queries and management"@,
            package_name: "WinPE-WMI"@,
            dependencies: seq![],
            default_enabled: true,
            category: PackageCategory::Core,
            required_for_app: true,
        },
        PackageView {
            id: "netfx"@,
            display_name: ".NET Framework"@,
            description: "Provides .NET runtime support for managed applications"@,
            package_name: "WinPE-NetFX"@,
            dependencies: seq!["wmi"@],
            default_enabled: true,
            category: PackageCategory::Core,
            required_for_app: false,
        },
        PackageView {
            id: "scripting"@,
            display_name: "Scripting (WSH)"@,
            description: "Windows Script Host - Enables VBScript and JScript execution"@,
            package_name: "WinPE-Scripting"@,
            dependencies: seq!["wmi"@],
            default_enabled: true,
            category: PackageCategory::Scripting,
            required_for_app: false,
        },
        PackageView {
            id: "hta"@,
            display_name: "HTML Applications"@,
            description: "Enables HTML Application (.hta) execution for GUI tools"@,
            package_name: "WinPE-HTA"@,
            dependencies: seq!["scripting"@],
            default_enabled: true,
            category: PackageCategory::Scripting,
            required_for_app: false,
        },
        PackageView {
            id: "powershell"@,
            display_name: "PowerShell"@,
            description: "Full PowerShell support for scripts and automation"@,
            package_name: "WinPE-PowerShell"@,
            dependencies: seq!["wmi"@, "netfx"@, "scripting"@],
            default_enabled: true,
            category: PackageCategory::Scripting,
            required_for_app: true,
        },
        PackageView {
            id: "dism_cmdlets"@,
            display_name: "DISM Cmdlets"@,
            description: "PowerShell cmdlets for image servicing (drivers, packages)"@,
            package_name: "WinPE-DismCmdlets"@,
            dependencies: seq!["powershell"@],
            default_enabled: false,
            category: PackageCategory::Scripting,
            required_for_app: false,
        },
        PackageView {
            id: "secureboot_cmdlets"@,
            display_name: "Secure Boot Cmdlets"@,
            description: "PowerShell cmdlets for managing Secure Boot settings"@,
            package_name: "WinPE-SecureBootCmdlets"@,
            dependencies: seq!["powershell"@],
            default_enabled: true,
            category: PackageCategory::Security,
            required_for_app: false,
        },
        PackageView {
            id: "storage_wmi"@,
            display_name: "Storage WMI"@,
            description: "WMI classes for storage management - CRITICAL for NVMe drives"@,
            package_name: "WinPE-StorageWMI"@,
            dependencies: seq!["wmi"@],
            default_enabled: true,
            category: PackageCategory::Storage,
            required_for_app: true,
        },
        PackageView {
            id: "enhanced_storage"@,
            display_name: "Enhanced Storage"@,
            description: "Support for encrypted and enhanced storage devices"@,
            package_name: "WinPE-EnhancedStorage"@,
            dependencies: seq![],
            default_enabled: true,
            category: PackageCategory::Storage,
            required_for_app: false,
        },
        PackageView {
            id: "fmapi"@,
            display_name: "File Management API"@,
            description: "Windows File Management APIs for advanced file operations"@,
            package_name: "WinPE-FMAPI"@,
            dependencies: seq![],
            default_enabled: true,
            category: PackageCategory::Storage,
            required_for_app: false,
        },
        PackageView {
            id: "dot3svc"@,
            display_name: "802.1X Authentication"@,
            description: "Wired network authentication (enterprise/corporate networks)"@,
            package_name: "WinPE-Dot3Svc"@,
            dependencies: seq![],
            default_enabled: true,
            category: PackageCategory::Network,
            required_for_app: false,
        },
        PackageView {
            id: "secure_startup"@,
            display_name: "BitLocker Support"@,
            description: "Enables unlocking BitLocker-encrypted drives"@,
            package_name: "WinPE-SecureStartup"@,
            dependencies: seq!["wmi"@],
            default_enabled: true,
            category: PackageCategory::Security,
            required_for_app: false,
        },
        PackageView {
            id: "winrecfg"@,
            display_name: "WinRE Configuration"@,
            description: "Windows Recovery Environment configuration tools"@,
            package_name: "WinPE-WinReCfg"@,
            dependencies: seq![],
            default_enabled: true,
            category: PackageCategory::Recovery,
            required_for_app: false,
        },
        PackageView {
            id: "font_support"@,
            display_name: "Font Support"@,
            description: "Additional font support for international characters"@,
            package_name: "WinPE-FontSupport-WinRE"@,
            dependencies: seq![],
            default_enabled: true,
            category: PackageCategory::Recovery,
            required_for_app: false,
        },
        PackageView {
            id: "platform_id"@,
            display_name: "Platform ID"@,
            description: "Platform identification for firmware/BIOS detection"@,
            package_name: "WinPE-PlatformId"@,
            dependencies: seq![],
            default_enabled: true,
            category: PackageCategory::Recovery,
            required_for_app: false,
        },
        PackageView {
            id: "wds_tools"@,
            display_name: "WDS Tools"@,
            description: "Windows Deployment Services client tools"@,
            package_name: "WinPE-WDS-Tools"@,
            dependencies: seq![],
            default_enabled: true,
            category: PackageCategory::Recovery,
            required_for_app: false,
        },
        PackageView {
            id: "rejuv"@,
            display_name: "Recovery (Rejuv)"@,
            description: "Windows Recovery Environment Rejuv tools (only in WinRE, not standalone ADK)"@,
            package_name: "WinPE-Rejuv"@,
            dependencies: seq![],
            default_enabled: false,
            category: PackageCategory::Recovery,
            required_for_app: false,
        },
        PackageView {
            id: "srt"@,
            display_name: "Startup Repair"@,
            description: "Startup Repair Tool for fixing boot problems (only in WinRE, not standalone ADK)"@,
            package_name: "WinPE-SRT"@,
            dependencies: seq![],
            default_enabled: false,
            category: PackageCategory::Recovery,
            required_for_app: false,
        },
        PackageView {
            id: "pppoe"@,
            display_name: "PPPoE"@,
            description: "Point-to-Point Protocol over Ethernet"@,
            package_name: "WinPE-PPPoE"@,
            dependencies: seq![],
            default_enabled: false,
            category: PackageCategory::Network,
            required_for_app: false,
        },
        PackageView {
            id: "rndis"@,
            display_name: "RNDIS (USB Network)"@,
            description: "Remote NDIS for USB tethering and network adapters"@,
            package_name: "WinPE-RNDIS"@,
            dependencies: seq![],
            default_enabled: true,
            category: PackageCategory::Network,
            required_for_app: false,
        },
        PackageView {
            id: "hsp_driver"@,
            display_name: "HSP Driver (Pluton)"@,
            description: "Microsoft Pluton security processor support"@,
            package_name: "WinPE-HSP-Driver"@,
            dependencies: seq![],
            default_enabled: false,
            category: PackageCategory::Security,
            required_for_app: false,
        },
        PackageView {
            id: "mdac"@,
            display_name: "Database (MDAC)"@,
            description: "ODBC and OLE DB database connectivity"@,
            package_name: "WinPE-MDAC"@,
            dependencies: seq![],
            default_enabled: false,
            category: PackageCategory::Storage,
            required_for_app: false,
        },
        PackageView {
            id: "setup"@,
            display_name: "Windows Setup"@,
            description: "Core Windows Setup support - required for installing Windows"@,
            package_name: "WinPE-Setup"@,
            dependencies: seq![],
            default_enabled: true,
            category: PackageCategory::Setup,
            required_for_app: false,
        },
        PackageView {
            id: "setup_client"@,
            display_name: "Setup (Client)"@,
            description: "Windows client edition setup branding"@,
            package_name: "WinPE-Setup-Client"@,
            dependencies: seq!["setup"@],
            default_enabled: true,
            category: PackageCategory::Setup,
            required_for_app: false,
        },
        PackageView {
            id: "setup_server"@,
            display_name: "Setup (Server)"@,
            description: "Windows Server edition setup branding"@,
            package_name: "WinPE-Setup-Server"@,
            dependencies: seq!["setup"@],
            default_enabled: false,
            category: PackageCategory::Setup,
            required_for_app: false,
        },
        PackageView {
            id: "legacy_setup"@,
            display_name: "Legacy Setup"@,
            description: "Legacy Windows Setup support for older installations"@,
            package_name: "WinPE-LegacySetup"@,
            dependencies: seq![],
            default_enabled: false,
            category: PackageCategory::Setup,
            required_for_app: false,
        },
        PackageView {
            id: "fonts_legacy"@,
            display_name: "Legacy Fonts"@,
            description: "Legacy font support for older applications"@,
            package_name: "WinPE-Fonts-Legacy"@,
            dependencies: seq![],
            default_enabled: false,
            category: PackageCategory::Fonts,
            required_for_app: false,
        },
        PackageView {
            id: "fonts_japanese"@,
            display_name: "Japanese Fonts"@,
            description: "Japanese language font support"@,
            package_name: "WinPE-FontSupport-JA-JP"@,
            dependencies: seq![],
            default_enabled: false,
            category: PackageCategory::Fonts,
            required_for_app: false,
        },
        PackageView {
            id: "fonts_korean"@,
            display_name: "Korean Fonts"@,
            description: "Korean language font support"@,
            package_name: "WinPE-FontSupport-KO-KR"@,
            dependencies: seq![],
            default_enabled: false,
            category: PackageCategory::Fonts,
            required_for_app: false,
        },
        PackageView {
            id: "fonts_chinese_simplified"@,
            display_name: "Chinese (Simplified)"@,
            description: "Simplified Chinese font support"@,
            package_name: "WinPE-FontSupport-ZH-CN"@,
            dependencies: seq![],
            default_enabled: false,
            category: PackageCategory::Fonts,
            required_for_app: false,
        },
        PackageView {
            id: "fonts_chinese_traditional"@,
            display_name: "Chinese (Traditional)"@,
            description: "Traditional Chinese font support"@,
            package_name: "WinPE-FontSupport-ZH-TW"@,
            dependencies: seq![],
            default_enabled: false,
            category: PackageCategory::Fonts,
            required_for_app: false,
        },
        PackageView {
            id: "fonts_chinese_hk"@,
            display_name: "Chinese (Hong Kong)"@,
            description: "Hong Kong Chinese font support"@,
            package_name: "WinPE-FontSupport-ZH-HK"@,
            dependencies: seq![],
            default_enabled: false,
            category: PackageCategory::Fonts,
            required_for_app: false,
        },
        PackageView {
            id: "gaming_peripherals"@,
            display_name: "Gaming Peripherals"@,
            description: "Xbox controller and gaming device support"@,
            package_name: "WinPE-GamingPeripherals"@,
            dependencies: seq![],
            default_enabled: false,
            category: PackageCategory::Input,
            required_for_app: false,
        }
    ]
}

/// All WinPE optional components this program supports, in catalog order.
pub fn get_all_packages() -> (r: Vec<AdkPackage>)
    ensures
        package_views(r@) == catalog(),
{
    let r = vec![        AdkPackage {
            id: "wmi",
            display_name: "WMI",
            description: "Windows Management Instrumentation - Required for system queries and management",
            package_name: "WinPE-WMI",
            dependencies: &[],
            default_enabled: true,
            category: PackageCategory::Core,
            required_for_app: true,
        },
        AdkPackage {
            id: "netfx",
            display_name: ".NET Framework",
            description: "Provides .NET runtime support for managed applications",
            package_name: "WinPE-NetFX",
            dependencies: &["wmi"],
            default_enabled: true,
            category: PackageCategory::Core,
            required_for_app: false,
        },
        AdkPackage {
            id: "scripting",
            display_name: "Scripting (WSH)",
            description: "Windows Script Host - Enables VBScript and JScript execution",
            package_name: "WinPE-Scripting",
            dependencies: &["wmi"],
            default_enabled: true,
            category: PackageCategory::Scripting,
            required_for_app: false,
        },
        AdkPackage {
            id: "hta",
            display_name: "HTML Applications",
            description: "Enables HTML Application (.hta) execution for GUI tools",
            package_name: "WinPE-HTA",
            dependencies: &["scripting"],
            default_enabled: true,
            category: PackageCategory::Scripting,
            required_for_app: false,
        },
        AdkPackage {
            id: "powershell",
            display_name: "PowerShell",
            description: "Full PowerShell support for scripts and automation",
            package_name: "WinPE-PowerShell",
            dependencies: &["wmi", "netfx", "scripting"],
            default_enabled: true,
            category: PackageCategory::Scripting,
            required_for_app: true,
        },
        AdkPackage {
            id: "dism_cmdlets",
            display_name: "DISM Cmdlets",
            description: "PowerShell cmdlets for image servicing (drivers, packages)",
            package_name: "WinPE-DismCmdlets",
            dependencies: &["powershell"],
            default_enabled: false,
            category: PackageCategory::Scripting,
            required_for_app: false,
        },
        AdkPackage {
            id: "secureboot_cmdlets",
            display_name: "Secure Boot Cmdlets",
            description: "PowerShell cmdlets for managing Secure Boot settings",
            package_name: "WinPE-SecureBootCmdlets",
            dependencies: &["powershell"],
            default_enabled: true,
            category: PackageCategory::Security,
            required_for_app: false,
        },
        AdkPackage {
            id: "storage_wmi",
            display_name: "Storage WMI",
            description: "WMI classes for storage management - CRITICAL for NVMe drives",
            package_name: "WinPE-StorageWMI",
            dependencies: &["wmi"],
            default_enabled: true,
            category: PackageCategory::Storage,
            required_for_app: true,
        },
        AdkPackage {
            id: "enhanced_storage",
            display_name: "Enhanced Storage",
            description: "Support for encrypted and enhanced storage devices",
            package_name: "WinPE-EnhancedStorage",
            dependencies: &[],
            default_enabled: true,
            category: PackageCategory::Storage,
            required_for_app: false,
        },
        AdkPackage {
            id: "fmapi",
            display_name: "File Management API",
            description: "Windows File Management APIs for advanced file operations",
            package_name: "WinPE-FMAPI",
            dependencies: &[],
            default_enabled: true,
            category: PackageCategory::Storage,
            required_for_app: false,
        },
        AdkPackage {
            id: "dot3svc",
            display_name: "802.1X Authentication",
            description: "Wired network authentication (enterprise/corporate networks)",
            package_name: "WinPE-Dot3Svc",
            dependencies: &[],
            default_enabled: true,
            category: PackageCategory::Network,
            required_for_app: false,
        },
        AdkPackage {
            id: "secure_startup",
            display_name: "BitLocker Support",
            description: "Enables unlocking BitLocker-encrypted drives",
            package_name: "WinPE-SecureStartup",
            dependencies: &["wmi"],
            default_enabled: true,
            category: PackageCategory::Security,
            required_for_app: false,
        },
        AdkPackage {
            id: "winrecfg",
            display_name: "WinRE Configuration",
            description: "Windows Recovery Environment configuration tools",
            package_name: "WinPE-WinReCfg",
            dependencies: &[],
            default_enabled: true,
            category: PackageCategory::Recovery,
            required_for_app: false,
        },
        AdkPackage {
            id: "font_support",
            display_name: "Font Support",
            description: "Additional font support for international characters",
            package_name: "WinPE-FontSupport-WinRE",
            dependencies: &[],
            default_enabled: true,
            category: PackageCategory::Recovery,
            required_for_app: false,
        },
        AdkPackage {
            id: "platform_id",
            display_name: "Platform ID",
            description: "Platform identification for firmware/BIOS detection",
            package_name: "WinPE-PlatformId",
            dependencies: &[],
            default_enabled: true,
            category: PackageCategory::Recovery,
            required_for_app: false,
        },
        AdkPackage {
            id: "wds_tools",
            display_name: "WDS Tools",
            description: "Windows Deployment Services client tools",
            package_name: "WinPE-WDS-Tools",
            dependencies: &[],
            default_enabled: true,
            category: PackageCategory::Recovery,
            required_for_app: false,
        },
        AdkPackage {
            id: "rejuv",
            display_name: "Recovery (Rejuv)",
            description: "Windows Recovery Environment Rejuv tools (only in WinRE, not standalone ADK)",
            package_name: "WinPE-Rejuv",
            dependencies: &[],
            default_enabled: false,
            category: PackageCategory::Recovery,
            required_for_app: false,
        },
        AdkPackage {
            id: "srt",
            display_name: "Startup Repair",
            description: "Startup Repair Tool for fixing boot problems (only in WinRE, not standalone ADK)",
            package_name: "WinPE-SRT",
            dependencies: &[],
            default_enabled: false,
            category: PackageCategory::Recovery,
            required_for_app: false,
        },
        AdkPackage {
            id: "pppoe",
            display_name: "PPPoE",
            description: "Point-to-Point Protocol over Ethernet",
            package_name: "WinPE-PPPoE",
            dependencies: &[],
            default_enabled: false,
            category: PackageCategory::Network,
            required_for_app: false,
        },
        AdkPackage {
            id: "rndis",
            display_name: "RNDIS (USB Network)",
            description: "Remote NDIS for USB tethering and network adapters",
            package_name: "WinPE-RNDIS",
            dependencies: &[],
            default_enabled: true,
            category: PackageCategory::Network,
            required_for_app: false,
        },
        AdkPackage {
            id: "hsp_driver",
            display_name: "HSP Driver (Pluton)",
            description: "Microsoft Pluton security processor support",
            package_name: "WinPE-HSP-Driver",
            dependencies: &[],
            default_enabled: false,
            category: PackageCategory::Security,
            required_for_app: false,
        },
        AdkPackage {
            id: "mdac",
            display_name: "Database (MDAC)",
            description: "ODBC and OLE DB database connectivity",
            package_name: "WinPE-MDAC",
            dependencies: &[],
            default_enabled: false,
            category: PackageCategory::Storage,
            required_for_app: false,
        },
        AdkPackage {
            id: "setup",
            display_name: "Windows Setup",
            description: "Core Windows Setup support - required for installing Windows",
            package_name: "WinPE-Setup",
            dependencies: &[],
            default_enabled: true,
            category: PackageCategory::Setup,
            required_for_app: false,
        },
        AdkPackage {
            id: "setup_client",
            display_name: "Setup (Client)",
            description: "Windows client edition setup branding",
            package_name: "WinPE-Setup-Client",
            dependencies: &["setup"],
            default_enabled: true,
            category: PackageCategory::Setup,
            required_for_app: false,
        },
        AdkPackage {
            id: "setup_server",
            display_name: "Setup (Server)",
            description: "Windows Server edition setup branding",
            package_name: "WinPE-Setup-Server",
            dependencies: &["setup"],
            default_enabled: false,
            category: PackageCategory::Setup,
            required_for_app: false,
        },
        AdkPackage {
            id: "legacy_setup",
            display_name: "Legacy Setup",
            description: "Legacy Windows Setup support for older installations",
            package_name: "WinPE-LegacySetup",
            dependencies: &[],
            default_enabled: false,
            category: PackageCategory::Setup,
            required_for_app: false,
        },
        AdkPackage {
            id: "fonts_legacy",
            display_name: "Legacy Fonts",
            description: "Legacy font support for older applications",
            package_name: "WinPE-Fonts-Legacy",
            dependencies: &[],
            default_enabled: false,
            category: PackageCategory::Fonts,
            required_for_app: false,
        },
        AdkPackage {
            id: "fonts_japanese",
            display_name: "Japanese Fonts",
            description: "Japanese language font support",
            package_name: "WinPE-FontSupport-JA-JP",
            dependencies: &[],
            default_enabled: false,
            category: PackageCategory::Fonts,
            required_for_app: false,
        },
        AdkPackage {
            id: "fonts_korean",
            display_name: "Korean Fonts",
            description: "Korean language font support",
            package_name: "WinPE-FontSupport-KO-KR",
            dependencies: &[],
            default_enabled: false,
            category: PackageCategory::Fonts,
            required_for_app: false,
        },
        AdkPackage {
            id: "fonts_chinese_simplified",
            display_name: "Chinese (Simplified)",
            description: "Simplified Chinese font support",
            package_name: "WinPE-FontSupport-ZH-CN",
            dependencies: &[],
            default_enabled: false,
            category: PackageCategory::Fonts,
            required_for_app: false,
        },
        AdkPackage {
            id: "fonts_chinese_traditional",
            display_name: "Chinese (Traditional)",
            description: "Traditional Chinese font support",
            package_name: "WinPE-FontSupport-ZH-TW",
            dependencies: &[],
            default_enabled: false,
            category: PackageCategory::Fonts,
            required_for_app: false,
        },
        AdkPackage {
            id: "fonts_chinese_hk",
            display_name: "Chinese (Hong Kong)",
            description: "Hong Kong Chinese font support",
            package_name: "WinPE-FontSupport-ZH-HK",
            dependencies: &[],
            default_enabled: false,
            category: PackageCategory::Fonts,
            required_for_app: false,
        },
        AdkPackage {
            id: "gaming_peripherals",
            display_name: "Gaming Peripherals",
            description: "Xbox controller and gaming device support",
            package_name: "WinPE-GamingPeripherals",
            dependencies: &[],
            default_enabled: false,
            category: PackageCategory::Input,
            required_for_app: false,
        }
    ];
    proof {
        reveal(catalog);
        assert(r@.len() == 33);
        assert(package_deps(r@[0]) =~= catalog()[0].dependencies);
        assert(package_views(r@)[0] =~= catalog()[0]);
        assert(package_deps(r@[1]) =~= catalog()[1].dependencies);
        assert(package_views(r@)[1] =~= catalog()[1]);
        assert(package_deps(r@[2]) =~= catalog()[2].dependencies);
        assert(package_views(r@)[2] =~= catalog()[2]);
        assert(package_deps(r@[3]) =~= catalog()[3].dependencies);
        assert(package_views(r@)[3] =~= catalog()[3]);
        assert(package_deps(r@[4]) =~= catalog()[4].dependencies);
        assert(package_views(r@)[4] =~= catalog()[4]);
        assert(package_deps(r@[5]) =~= catalog()[5].dependencies);
        assert(package_views(r@)[5] =~= catalog()[5]);
        assert(package_deps(r@[6]) =~= catalog()[6].dependencies);
        assert(package_views(r@)[6] =~= catalog()[6]);
        assert(package_deps(r@[7]) =~= catalog()[7].dependencies);
        assert(package_views(r@)[7] =~= catalog()[7]);
        assert(package_deps(r@[8]) =~= catalog()[8].dependencies);
        assert(package_views(r@)[8] =~= catalog()[8]);
        assert(package_deps(r@[9]) =~= catalog()[9].dependencies);
        assert(package_views(r@)[9] =~= catalog()[9]);
        assert(package_deps(r@[10]) =~= catalog()[10].dependencies);
        assert(package_views(r@)[10] =~= catalog()[10]);
        assert(package_deps(r@[11]) =~= catalog()[11].dependencies);
        assert(package_views(r@)[11] =~= catalog()[11]);
        assert(package_deps(r@[12]) =~= catalog()[12].dependencies);
        assert(package_views(r@)[12] =~= catalog()[12]);
        assert(package_deps(r@[13]) =~= catalog()[13].dependencies);
        assert(package_views(r@)[13] =~= catalog()[13]);
        assert(package_deps(r@[14]) =~= catalog()[14].dependencies);
        assert(package_views(r@)[14] =~= catalog()[14]);
        assert(package_deps(r@[15]) =~= catalog()[15].dependencies);
        assert(package_views(r@)[15] =~= catalog()[15]);
        assert(package_deps(r@[16]) =~= catalog()[16].dependencies);
        assert(package_views(r@)[16] =~= catalog()[16]);
        assert(package_deps(r@[17]) =~= catalog()[17].dependencies);
        assert(package_views(r@)[17] =~= catalog()[17]);
        assert(package_deps(r@[18]) =~= catalog()[18].dependencies);
        assert(package_views(r@)[18] =~= catalog()[18]);
        assert(package_deps(r@[19]) =~= catalog()[19].dependencies);
        assert(package_views(r@)[19] =~= catalog()[19]);
        assert(package_deps(r@[20]) =~= catalog()[20].dependencies);
        assert(package_views(r@)[20] =~= catalog()[20]);
        assert(package_deps(r@[21]) =~= catalog()[21].dependencies);
        assert(package_views(r@)[21] =~= catalog()[21]);
        assert(package_deps(r@[22]) =~= catalog()[22].dependencies);
        assert(package_views(r@)[22] =~= catalog()[22]);
        assert(package_deps(r@[23]) =~= catalog()[23].dependencies);
        assert(package_views(r@)[23] =~= catalog()[23]);
        assert(package_deps(r@[24]) =~= catalog()[24].dependencies);
        assert(package_views(r@)[24] =~= catalog()[24]);
        assert(package_deps(r@[25]) =~= catalog()[25].dependencies);
        assert(package_views(r@)[25] =~= catalog()[25]);
        assert(package_deps(r@[26]) =~= catalog()[26].dependencies);
        assert(package_views(r@)[26] =~= catalog()[26]);
        assert(package_deps(r@[27]) =~= catalog()[27].dependencies);
        assert(package_views(r@)[27] =~= catalog()[27]);
        assert(package_deps(r@[28]) =~= catalog()[28].dependencies);
        assert(package_views(r@)[28] =~= catalog()[28]);
        assert(package_deps(r@[29]) =~= catalog()[29].dependencies);
        assert(package_views(r@)[29] =~= catalog()[29]);
        assert(package_deps(r@[30]) =~= catalog()[30].dependencies);
        assert(package_views(r@)[30] =~= catalog()[30]);
        assert(package_deps(r@[31]) =~= catalog()[31].dependencies);
        assert(package_views(r@)[31] =~= catalog()[31]);
        assert(package_deps(r@[32]) =~= catalog()[32].dependencies);
        assert(package_views(r@)[32] =~= catalog()[32]);
        assert(package_views(r@) =~= catalog());
    }
    r
}

} // verus!

verus! {

/// The identifiers of the packages of `s` that `sel` picks, in order.
pub open spec fn ids_with(s: Seq<PackageView>, sel: spec_fn(PackageView) -> bool) -> Seq<
    Seq<char>,
>
    decreases s.len(),
{
    if s.len() == 0 {
        Seq::empty()
    } else {
        let rest = ids_with(s.drop_last(), sel);
        if sel(s.last()) {
            rest.push(s.last().id)
        } else {
            rest
        }
    }
}

pub open spec fn is_default(p: PackageView) -> bool {
    p.default_enabled
}

pub open spec fn is_required(p: PackageView) -> bool {
    p.required_for_app
}

/// The identifiers of the packages in `ps` whose default (or, with
/// `required`, required) flag is set.
fn ids_flagged(ps: &Vec<AdkPackage>, required: bool) -> (r: Vec<String>)
    ensures
        strings_of(r@) == ids_with(
            package_views(ps@),
            if required { |p: PackageView| is_required(p) } else { |p: PackageView| is_default(p) },
        ),
{
    let ghost sel = if required { |p: PackageView| is_required(p) } else { |p: PackageView| is_default(p) };
    let mut r: Vec<String> = Vec::new();
    let mut i: usize = 0;
    while i < ps.len()
        invariant
            i <= ps@.len(),
            sel == (if required { |p: PackageView| is_required(p) } else { |p: PackageView| is_default(p) }),
            strings_of(r@) == ids_with(package_views(ps@.take(i as int)), sel),
        decreases ps@.len() - i,
    {
        let p = ps[i];
        let picked = if required { p.required_for_app } else { p.default_enabled };
        proof {
            let pv = package_views(ps@.take(i + 1));
            assert(pv.drop_last() =~= package_views(ps@.take(i as int)));
            assert(pv.last() == p@);
            assert(sel(p@) == picked);
        }
        if picked {
            let ghost before = r@;
            r.push(String::from_str(p.id));
            proof {
                lemma_strings_of_push(before, r@.last());
                assert(r@ == before.push(r@.last()));
            }
        }
        i = i + 1;
    }
    proof {
        assert(ps@.take(ps@.len() as int) =~= ps@);
    }
    r
}

/// Identifiers of the packages enabled by default, in catalog order.
pub fn get_default_enabled_packages() -> (r: Vec<String>)
    ensures
        strings_of(r@) == ids_with(catalog(), |p: PackageView| is_default(p)),
{
    let all = get_all_packages();
    ids_flagged(&all, false)
}

/// Identifiers of the packages this program needs, in catalog order.
pub fn get_required_packages() -> (r: Vec<String>)
    ensures
        strings_of(r@) == ids_with(catalog(), |p: PackageView| is_required(p)),
{
    let all = get_all_packages();
    ids_flagged(&all, true)
}

} // verus!

verus! {

// ---------------------------------------------------------------------------
// Dependency resolution
// ---------------------------------------------------------------------------

/// The index of the last package among the first `n` whose identifier is
/// `id` (a later entry with the same identifier wins, as in a map built from
/// the list).
pub open spec fn lookup_upto(pv: Seq<PackageView>, id: Seq<char>, n: int) -> Option<int>
    decreases n,
{
    if n <= 0 {
        None
    } else if pv[n - 1].id == id {
        Some(n - 1)
    } else {
        lookup_upto(pv, id, n - 1)
    }
}

pub open spec fn lookup(pv: Seq<PackageView>, id: Seq<char>) -> Option<int> {
    lookup_upto(pv, id, pv.len() as int)
}

pub open spec fn known(pv: Seq<PackageView>, id: Seq<char>) -> bool {
    lookup(pv, id) is Some
}

/// The dependencies of the package named `id` (none if it is unknown).
pub open spec fn deps_of(pv: Seq<PackageView>, id: Seq<char>) -> Seq<Seq<char>> {
    match lookup(pv, id) {
        Some(i) => pv[i].dependencies,
        None => Seq::empty(),
    }
}

/// `rank` strictly decreases from each package to each of its known
/// dependencies.
pub open spec fn ranks_dependencies(pv: Seq<PackageView>, rank: spec_fn(Seq<char>) -> nat) -> bool {
    forall|x: Seq<char>, j: int|
        0 <= j < deps_of(pv, x).len() && known(pv, deps_of(pv, x)[j]) ==> rank(
            #[trigger] deps_of(pv, x)[j],
        ) < rank(x)
}

/// No package depends, directly or through other packages, on itself.
pub open spec fn acyclic(pv: Seq<PackageView>) -> bool {
    exists|rank: spec_fn(Seq<char>) -> nat| #[trigger] ranks_dependencies(pv, rank)
}

/// Every known dependency of each package in `order` comes before it.
pub open spec fn dependencies_first(pv: Seq<PackageView>, order: Seq<Seq<char>>) -> bool {
    forall|j: int, u: int|
        0 <= j < order.len() && 0 <= u < deps_of(pv, order[j]).len() && known(
            pv,
            deps_of(pv, order[j])[u],
        ) ==> exists|i: int| 0 <= i < j && order[i] == #[trigger] deps_of(pv, order[j])[u]
}

/// `s` holds every known requested package and every known dependency of
/// each package it holds.
pub open spec fn closed_over(pv: Seq<PackageView>, req: Seq<Seq<char>>, s: Set<Seq<char>>) -> bool {
    &&& forall|i: int| 0 <= i < req.len() && known(pv, req[i]) ==> s.contains(req[i])
    &&& forall|x: Seq<char>, j: int|
        s.contains(x) && 0 <= j < deps_of(pv, x).len() && known(pv, deps_of(pv, x)[j])
            ==> s.contains(#[trigger] deps_of(pv, x)[j])
}

/// `order` is an install order for the requested packages: each needed
/// package once (the requested known packages and, transitively, their
/// known dependencies, and nothing else), each one after all of its known
/// dependencies.
pub open spec fn is_install_order(
    pv: Seq<PackageView>,
    req: Seq<Seq<char>>,
    order: Seq<Seq<char>>,
) -> bool {
    &&& order.no_duplicates()
    &&& forall|i: int| 0 <= i < order.len() ==> known(pv, #[trigger] order[i])
    &&& closed_over(pv, req, order.to_set())
    &&& forall|s: Set<Seq<char>>| #[trigger]
        closed_over(pv, req, s) ==> forall|i: int| 0 <= i < order.len() ==> s.contains(order[i])
    &&& dependencies_first(pv, order)
}

pub proof fn lemma_lookup_upto(pv: Seq<PackageView>, id: Seq<char>, n: int)
    requires
        0 <= n <= pv.len(),
    ensures
        lookup_upto(pv, id, n) matches Some(i) ==> 0 <= i < n && pv[i].id == id,
        lookup_upto(pv, id, n) is None ==> forall|i: int| 0 <= i < n ==> pv[i].id != id,
    decreases n,
{
    if n > 0 && pv[n - 1].id != id {
        lemma_lookup_upto(pv, id, n - 1);
    }
}

} // verus!

verus! {

/// The index of the package named `id` (the last one, if several are).
fn find_package(pkgs: &[AdkPackage], id: &[char]) -> (r: Option<usize>)
    ensures
        match lookup(package_views(pkgs@), id@) {
            Some(i) => r == Some(i as usize),
            None => r is None,
        },
{
    let ghost pv = package_views(pkgs@);
    let mut i = pkgs.len();
    while i > 0
        invariant
            i <= pkgs@.len(),
            pv == package_views(pkgs@),
            lookup(pv, id@) == lookup_upto(pv, id@, i as int),
        decreases i,
    {
        let name = to_chars(pkgs[i - 1].id);
        proof {
            assert(pv[i - 1] == pkgs@[i - 1]@);
        }
        if chars_equal(name.as_slice(), id) {
            return Some(i - 1);
        }
        i = i - 1;
    }
    None
}

/// Whether `list` holds `id`.
fn holds_id(list: &Vec<Vec<char>>, id: &[char]) -> (r: bool)
    ensures
        r == seqs_of(list@).contains(id@),
{
    let mut i: usize = 0;
    while i < list.len()
        invariant
            i <= list@.len(),
            forall|j: int| 0 <= j < i ==> seqs_of(list@)[j] != id@,
        decreases list@.len() - i,
    {
        if chars_equal(list[i].as_slice(), id) {
            proof {
                assert(seqs_of(list@)[i as int] == id@);
            }
            return true;
        }
        i = i + 1;
    }
    false
}

} // verus!

verus! {

/// A partial install order: distinct known packages, each one held by every
/// closed set, each one listed after all of its known dependencies.
pub open spec fn partial_install_order(
    pv: Seq<PackageView>,
    req: Seq<Seq<char>>,
    nv: Seq<Seq<char>>,
) -> bool {
    &&& nv.no_duplicates()
    &&& forall|i: int| 0 <= i < nv.len() ==> known(pv, #[trigger] nv[i])
    &&& forall|s: Set<Seq<char>>| #[trigger]
        closed_over(pv, req, s) ==> forall|i: int| 0 <= i < nv.len() ==> s.contains(nv[i])
    &&& forall|j: int, u: int|
        0 <= j < nv.len() && 0 <= u < deps_of(pv, nv[j]).len() && known(pv, deps_of(pv, nv[j])[u])
            ==> nv.take(j).contains(#[trigger] deps_of(pv, nv[j])[u])
}

proof fn lemma_push_keeps(nv: Seq<Seq<char>>, x: Seq<char>)
    ensures
        forall|y: Seq<char>| nv.contains(y) ==> #[trigger] nv.push(x).contains(y),
        nv.push(x).contains(x),
{
    assert forall|y: Seq<char>| nv.contains(y) implies #[trigger] nv.push(x).contains(y) by {
        let i = choose|i: int| 0 <= i < nv.len() && nv[i] == y;
        assert(nv.push(x)[i] == y);
    }
    assert(nv.push(x)[nv.len() as int] == x);
}

/// A sequence that extends `a` holds everything `a` holds.
proof fn lemma_extension_keeps(a: Seq<Seq<char>>, b: Seq<Seq<char>>, y: Seq<char>)
    requires
        a.len() <= b.len(),
        forall|i: int| 0 <= i < a.len() ==> b[i] == a[i],
        a.contains(y),
    ensures
        b.contains(y),
{
    let i = choose|i: int| 0 <= i < a.len() && a[i] == y;
    assert(b[i] == y);
}

/// Adds the package `id` to `needed` after its known dependencies, walking
/// them depth first; nothing is added for an unknown identifier or one
/// already listed.
fn collect_deps(
    id: Vec<char>,
    pkgs: &[AdkPackage],
    needed: &mut Vec<Vec<char>>,
    Ghost(req): Ghost<Seq<Seq<char>>>,
    Ghost(rank): Ghost<spec_fn(Seq<char>) -> nat>,
)
    requires
        partial_install_order(package_views(pkgs@), req, seqs_of(old(needed)@)),
        ranks_dependencies(package_views(pkgs@), rank),
        forall|s: Set<Seq<char>>|
            closed_over(package_views(pkgs@), req, s) && known(package_views(pkgs@), id@)
                ==> s.contains(id@),
    ensures
        partial_install_order(package_views(pkgs@), req, seqs_of(final(needed)@)),
        seqs_of(old(needed)@).len() <= seqs_of(final(needed)@).len(),
        forall|i: int|
            0 <= i < seqs_of(old(needed)@).len() ==> seqs_of(final(needed)@)[i] == seqs_of(
                old(needed)@,
            )[i],
        known(package_views(pkgs@), id@) ==> seqs_of(final(needed)@).contains(id@),
        forall|k: int|
            seqs_of(old(needed)@).len() <= k < seqs_of(final(needed)@).len() ==> rank(
                #[trigger] seqs_of(final(needed)@)[k],
            ) <= rank(id@),
    decreases rank(id@),
{
    let ghost pv = package_views(pkgs@);
    let ghost old_nv = seqs_of(needed@);
    let ghost idv = id@;
    if holds_id(needed, id.as_slice()) {
        return;
    }
    proof {
        lemma_lookup_upto(pv, idv, pv.len() as int);
    }
    let found = find_package(pkgs, id.as_slice());
    if let Some(idx) = found {
        let deps = pkgs[idx].dependencies;
        proof {
            assert(pv[idx as int] == pkgs@[idx as int]@);
            assert(deps@.map_values(|d: &str| d@) == deps_of(pv, idv));
        }
        let mut t: usize = 0;
        while t < deps.len()
            invariant
                t <= deps@.len(),
                pv == package_views(pkgs@),
                idv == id@,
                deps@.map_values(|d: &str| d@) == deps_of(pv, idv),
                known(pv, idv),
                ranks_dependencies(pv, rank),
                forall|s: Set<Seq<char>>| closed_over(pv, req, s) ==> s.contains(idv),
                partial_install_order(pv, req, seqs_of(needed@)),
                old_nv.len() <= seqs_of(needed@).len(),
                forall|i: int| 0 <= i < old_nv.len() ==> seqs_of(needed@)[i] == old_nv[i],
                !old_nv.contains(idv),
                forall|k: int|
                    old_nv.len() <= k < seqs_of(needed@).len() ==> rank(
                        #[trigger] seqs_of(needed@)[k],
                    ) < rank(idv),
                forall|u: int|
                    0 <= u < t && known(pv, deps_of(pv, idv)[u]) ==> seqs_of(needed@).contains(
                        #[trigger] deps_of(pv, idv)[u],
                    ),
            decreases deps@.len() - t,
        {
            let d = to_chars(deps[t]);
            let ghost dv = d@;
            proof {
                assert(dv == deps_of(pv, idv)[t as int]);
                lemma_lookup_upto(pv, dv, pv.len() as int);
            }
            if find_package(pkgs, d.as_slice()).is_some() {
                let ghost before = seqs_of(needed@);
                proof {
                    assert(known(pv, deps_of(pv, idv)[t as int]));
                    assert(rank(dv) < rank(idv));
                    assert forall|s: Set<Seq<char>>|
                        closed_over(pv, req, s) && known(pv, dv) implies s.contains(dv) by {
                        assert(s.contains(idv));
                        assert(s.contains(deps_of(pv, idv)[t as int]));
                    }
                }
                collect_deps(d, pkgs, needed, Ghost(req), Ghost(rank));
                proof {
                    let nv = seqs_of(needed@);
                    assert forall|i: int| 0 <= i < old_nv.len() implies nv[i] == old_nv[i] by {
                        assert(nv[i] == before[i]);
                    }
                    assert forall|k: int| old_nv.len() <= k < nv.len() implies rank(
                        #[trigger] nv[k],
                    ) < rank(idv) by {
                        if k < before.len() {
                            assert(nv[k] == before[k]);
                        }
                    }
                    assert forall|u: int|
                        0 <= u < t + 1 && known(pv, deps_of(pv, idv)[u]) implies nv.contains(
                        #[trigger] deps_of(pv, idv)[u],
                    ) by {
                        if u < t {
                            lemma_extension_keeps(before, nv, deps_of(pv, idv)[u]);
                        }
                    }
                }
            } else {
                proof {
                    assert(!known(pv, deps_of(pv, idv)[t as int]));
                }
            }
            t = t + 1;
        }
        let ghost nv0 = seqs_of(needed@);
        proof {
            assert(!nv0.contains(idv)) by {
                if nv0.contains(idv) {
                    let k = choose|k: int| 0 <= k < nv0.len() && nv0[k] == idv;
                    if k < old_nv.len() {
                        assert(old_nv[k] == idv);
                    } else {
                        assert(rank(nv0[k]) < rank(idv));
                    }
                }
            }
        }
        needed.push(id);
        proof {
            let nv = seqs_of(needed@);
            assert(nv =~= nv0.push(idv));
            lemma_push_keeps(nv0, idv);
            assert forall|i: int, j: int|
                0 <= i < nv.len() && 0 <= j < nv.len() && i != j implies nv[i] != nv[j] by {
                if i == nv0.len() {
                    assert(nv0[j] == nv[j]);
                } else if j == nv0.len() {
                    assert(nv0[i] == nv[i]);
                }
            }
            assert(nv.no_duplicates());
            assert forall|s: Set<Seq<char>>| #[trigger]
                closed_over(pv, req, s) implies forall|i: int| 0 <= i < nv.len() ==> s.contains(nv[i]) by {
                assert forall|i: int| 0 <= i < nv.len() implies s.contains(nv[i]) by {
                    if i < nv0.len() {
                        assert(nv[i] == nv0[i]);
                    }
                }
            }
            assert forall|j: int, u: int|
                0 <= j < nv.len() && 0 <= u < deps_of(pv, nv[j]).len() && known(
                    pv,
                    deps_of(pv, nv[j])[u],
                ) implies nv.take(j).contains(#[trigger] deps_of(pv, nv[j])[u]) by {
                if j < nv0.len() {
                    assert(nv[j] == nv0[j]);
                    assert(nv.take(j) =~= nv0.take(j));
                } else {
                    assert(nv.take(j) =~= nv0);
                    assert(nv[j] == idv);
                }
            }
            assert forall|k: int| old_nv.len() <= k < nv.len() implies rank(#[trigger] nv[k])
                <= rank(idv) by {
                if k < nv0.len() {
                    assert(nv[k] == nv0[k]);
                }
            }
        }
    }
}

/// The install order for the requested packages: the known requested
/// packages and, transitively, their known dependencies, each once, every
/// package after all of its known dependencies (a depth-first walk of the
/// requests in order). Unknown identifiers are skipped. The packages must
/// not depend on themselves, directly or through others.
pub fn resolve_dependency_order(package_ids: &[String], packages: &[AdkPackage]) -> (r: Vec<String>)
    requires
        acyclic(package_views(packages@)),
    ensures
        is_install_order(package_views(packages@), strings_of(package_ids@), strings_of(r@)),
{
    let ghost pv = package_views(packages@);
    let ghost req = strings_of(package_ids@);
    let ghost rank = choose|rank: spec_fn(Seq<char>) -> nat| ranks_dependencies(pv, rank);
    let mut needed: Vec<Vec<char>> = Vec::new();
    proof {
        assert(seqs_of(needed@) =~= Seq::<Seq<char>>::empty());
    }
    let mut p: usize = 0;
    while p < package_ids.len()
        invariant
            p <= package_ids@.len(),
            pv == package_views(packages@),
            req == strings_of(package_ids@),
            ranks_dependencies(pv, rank),
            partial_install_order(pv, req, seqs_of(needed@)),
            forall|i: int| 0 <= i < p && known(pv, req[i]) ==> seqs_of(needed@).contains(req[i]),
        decreases package_ids@.len() - p,
    {
        let id = to_chars(package_ids[p].as_str());
        proof {
            assert(id@ == req[p as int]);
            assert forall|s: Set<Seq<char>>| closed_over(pv, req, s) && known(pv, id@) implies s.contains(
                id@,
            ) by {
                assert(0 <= p < req.len() && known(pv, req[p as int]));
            }
        }
        let ghost before = seqs_of(needed@);
        collect_deps(id, packages, &mut needed, Ghost(req), Ghost(rank));
        proof {
            assert forall|i: int| 0 <= i < p + 1 && known(pv, req[i]) implies seqs_of(
                needed@,
            ).contains(req[i]) by {
                if i < p {
                    lemma_extension_keeps(before, seqs_of(needed@), req[i]);
                }
            }
        }
        p = p + 1;
    }
    let ghost nv = seqs_of(needed@);
    let mut r: Vec<String> = Vec::new();
    let mut k: usize = 0;
    while k < needed.len()
        invariant
            k <= needed@.len(),
            nv == seqs_of(needed@),
            strings_of(r@) == nv.take(k as int),
        decreases needed@.len() - k,
    {
        let s = crate::text::string_from(needed[k].as_slice());
        let ghost before = r@;
        r.push(s);
        proof {
            lemma_strings_of_push(before, s);
            assert(nv[k as int] == needed@[k as int]@);
            assert(nv.take(k + 1) =~= nv.take(k as int).push(nv[k as int]));
        }
        k = k + 1;
    }
    proof {
        assert(nv.take(nv.len() as int) =~= nv);
        let ro = strings_of(r@);
        assert(ro == nv);
        assert forall|x: Seq<char>, j: int|
            ro.to_set().contains(x) && 0 <= j < deps_of(pv, x).len() && known(pv, deps_of(pv, x)[j])
                implies ro.to_set().contains(#[trigger] deps_of(pv, x)[j]) by {
            let i = choose|i: int| 0 <= i < ro.len() && ro[i] == x;
            assert(ro.take(i).contains(deps_of(pv, ro[i])[j]));
            lemma_extension_keeps(ro.take(i), ro, deps_of(pv, x)[j]);
        }
        assert forall|i: int| 0 <= i < req.len() && known(pv, req[i]) implies ro.to_set().contains(
            req[i],
        ) by {
            assert(ro.contains(req[i]));
        }
        assert forall|j: int, u: int|
            0 <= j < ro.len() && 0 <= u < deps_of(pv, ro[j]).len() && known(pv, deps_of(pv, ro[j])[u])
                implies exists|i: int| 0 <= i < j && ro[i] == #[trigger] deps_of(pv, ro[j])[u] by {
            assert(ro.take(j).contains(deps_of(pv, ro[j])[u]));
            let i = choose|i: int| 0 <= i < ro.take(j).len() && ro.take(j)[i] == deps_of(pv, ro[j])[u];
            assert(ro[i] == deps_of(pv, ro[j])[u]);
        }
    }
    r
}

} // verus!

verus! {

/// The catalog's dependency depth: WMI and Setup need nothing, .NET and
/// scripting need WMI, PowerShell needs those three, and every other
/// package needs at most PowerShell.
pub open spec fn catalog_rank(id: Seq<char>) -> nat {
    if id == "powershell"@ {
        2
    } else if id == "netfx"@ || id == "scripting"@ {
        1
    } else if id == "wmi"@ || id == "setup"@ {
        0
    } else {
        3
    }
}

/// Every dependency of `p` is of lower catalog depth than `p`.
pub open spec fn catalog_ranked(p: PackageView) -> bool {
    forall|u: int|
        0 <= u < p.dependencies.len() ==> catalog_rank(#[trigger] p.dependencies[u]) < catalog_rank(p.id)
}

/// No catalog package depends, directly or through others, on itself.
pub proof fn lemma_catalog_acyclic()
    ensures
        acyclic(catalog()),
{
    reveal(catalog);
    reveal_strlit("powershell");
    reveal_strlit("netfx");
    reveal_strlit("scripting");
    reveal_strlit("wmi");
    reveal_strlit("setup");
    reveal_strlit("hta");
    reveal_strlit("dism_cmdlets");
    reveal_strlit("secureboot_cmdlets");
    reveal_strlit("storage_wmi");
    reveal_strlit("secure_startup");
    reveal_strlit("setup_client");
    reveal_strlit("setup_server");
    assert("powershell"@.len() == 10);
    assert("netfx"@.len() == 5);
    assert("scripting"@.len() == 9);
    assert("wmi"@.len() == 3);
    assert("setup"@.len() == 5);
    assert("hta"@.len() == 3);
    assert("dism_cmdlets"@.len() == 12);
    assert("secureboot_cmdlets"@.len() == 18);
    assert("storage_wmi"@.len() == 11);
    assert("secure_startup"@.len() == 14);
    assert("setup_client"@.len() == 12);
    assert("setup_server"@.len() == 12);
    assert("setup"@[0] != "netfx"@[0]);
    assert("hta"@[0] != "wmi"@[0]);
    assert(catalog().len() == 33);
    assert forall|i: int| 0 <= i < catalog().len() implies catalog_ranked(#[trigger] catalog()[i]) by {
        if i == 0 {
            assert(catalog_ranked(catalog()[0]));
        } else if i == 1 {
            assert(catalog_ranked(catalog()[1]));
        } else if i == 2 {
            assert(catalog_ranked(catalog()[2]));
        } else if i == 3 {
            assert(catalog_ranked(catalog()[3]));
        } else if i == 4 {
            assert(catalog_ranked(catalog()[4]));
        } else if i == 5 {
            assert(catalog_ranked(catalog()[5]));
        } else if i == 6 {
            assert(catalog_ranked(catalog()[6]));
        } else if i == 7 {
            assert(catalog_ranked(catalog()[7]));
        } else if i == 8 {
            assert(catalog_ranked(catalog()[8]));
        } else if i == 9 {
            assert(catalog_ranked(catalog()[9]));
        } else if i == 10 {
            assert(catalog_ranked(catalog()[10]));
        } else if i == 11 {
            assert(catalog_ranked(catalog()[11]));
        } else if i == 12 {
            assert(catalog_ranked(catalog()[12]));
        } else if i == 13 {
            assert(catalog_ranked(catalog()[13]));
        } else if i == 14 {
            assert(catalog_ranked(catalog()[14]));
        } else if i == 15 {
            assert(catalog_ranked(catalog()[15]));
        } else if i == 16 {
            assert(catalog_ranked(catalog()[16]));
        } else if i == 17 {
            assert(catalog_ranked(catalog()[17]));
        } else if i == 18 {
            assert(catalog_ranked(catalog()[18]));
        } else if i == 19 {
            assert(catalog_ranked(catalog()[19]));
        } else if i == 20 {
            assert(catalog_ranked(catalog()[20]));
        } else if i == 21 {
            assert(catalog_ranked(catalog()[21]));
        } else if i == 22 {
            assert(catalog_ranked(catalog()[22]));
        } else if i == 23 {
            assert(catalog_ranked(catalog()[23]));
        } else if i == 24 {
            assert(catalog_ranked(catalog()[24]));
        } else if i == 25 {
            assert(catalog_ranked(catalog()[25]));
        } else if i == 26 {
            assert(catalog_ranked(catalog()[26]));
        } else if i == 27 {
            assert(catalog_ranked(catalog()[27]));
        } else if i == 28 {
            assert(catalog_ranked(catalog()[28]));
        } else if i == 29 {
            assert(catalog_ranked(catalog()[29]));
        } else if i == 30 {
            assert(catalog_ranked(catalog()[30]));
        } else if i == 31 {
            assert(catalog_ranked(catalog()[31]));
        } else if i == 32 {
            assert(catalog_ranked(catalog()[32]));
        }
    }
    let rank = |x: Seq<char>| catalog_rank(x);
    let cat = catalog();
    assert forall|x: Seq<char>, j: int|
        0 <= j < deps_of(cat, x).len() && known(cat, deps_of(cat, x)[j]) implies rank(
        #[trigger] deps_of(cat, x)[j],
    ) < rank(x) by {
        lemma_lookup_upto(cat, x, cat.len() as int);
        let i = lookup(cat, x)->0;
        assert(catalog_ranked(cat[i]));
    }
    assert(ranks_dependencies(cat, rank));
}

/// Every known package that was asked for is in the install order, and so
/// is every known dependency of every package in it.
pub proof fn lemma_install_order_complete(
    pv: Seq<PackageView>,
    req: Seq<Seq<char>>,
    order: Seq<Seq<char>>,
    x: Seq<char>,
)
    requires
        is_install_order(pv, req, order),
        known(pv, x),
        req.contains(x) || exists|y: Seq<char>| order.contains(y) && deps_of(pv, y).contains(x),
    ensures
        order.contains(x),
{
    if req.contains(x) {
        let i = choose|i: int| 0 <= i < req.len() && req[i] == x;
        assert(order.to_set().contains(req[i]));
    } else {
        let y = choose|y: Seq<char>| order.contains(y) && deps_of(pv, y).contains(x);
        let j = choose|j: int| 0 <= j < deps_of(pv, y).len() && deps_of(pv, y)[j] == x;
        assert(order.to_set().contains(y));
        assert(order.to_set().contains(deps_of(pv, y)[j]));
    }
}

/// The package named `id` (the last one with that identifier).
pub open spec fn package_for(pv: Seq<PackageView>, id: Seq<char>) -> PackageView {
    pv[lookup(pv, id)->0]
}

/// The identifiers of a list of packages.
pub open spec fn ids_of(pv: Seq<PackageView>) -> Seq<Seq<char>> {
    pv.map_values(|p: PackageView| p.id)
}

/// The package named `id` in `pkgs`, if there is one.
fn package_named(pkgs: &Vec<AdkPackage>, id: &[char]) -> (r: Option<AdkPackage>)
    ensures
        known(package_views(pkgs@), id@) ==> (r matches Some(p) && p@ == package_for(
            package_views(pkgs@),
            id@,
        ) && p.id@ == id@),
        !known(package_views(pkgs@), id@) ==> r is None,
{
    let ghost pv = package_views(pkgs@);
    proof {
        lemma_lookup_upto(pv, id@, pv.len() as int);
    }
    let n = pkgs.len();
    match find_package(pkgs.as_slice(), id) {
        Some(idx) => {
            proof {
                let j = lookup(pv, id@)->0;
                assert(pv.len() == n);
                assert(lookup(pv, id@) is Some);
                assert(0 <= j < pv.len());
                assert(idx == j as usize);
                assert(idx as int == j);
                assert(pv[idx as int] == pkgs@[idx as int]@);
            }
            Some(pkgs[idx])
        },
        None => None,
    }
}

/// The catalog packages to install for a selection, in install order.
pub fn packages_in_install_order(enabled_package_ids: &[String]) -> (r: Vec<AdkPackage>)
    ensures
        is_install_order(catalog(), strings_of(enabled_package_ids@), ids_of(package_views(r@))),
        forall|i: int|
            0 <= i < r@.len() ==> #[trigger] r@[i]@ == package_for(catalog(), r@[i].id@),
{
    let all = get_all_packages();
    proof {
        lemma_catalog_acyclic();
    }
    let order = resolve_dependency_order(enabled_package_ids, all.as_slice());
    let ghost pv = package_views(all@);
    let ghost ov = strings_of(order@);
    let mut r: Vec<AdkPackage> = Vec::new();
    let mut i: usize = 0;
    while i < order.len()
        invariant
            i <= order@.len(),
            pv == package_views(all@),
            ov == strings_of(order@),
            forall|k: int| 0 <= k < ov.len() ==> known(pv, #[trigger] ov[k]),
            r@.len() == i,
            forall|k: int| 0 <= k < i ==> #[trigger] r@[k].id@ == ov[k] && r@[k]@ == package_for(pv, ov[k]),
        decreases order@.len() - i,
    {
        let id = to_chars(order[i].as_str());
        proof {
            assert(id@ == ov[i as int]);
            assert(known(pv, ov[i as int]));
        }
        let p = package_named(&all, id.as_slice());
        if let Some(p) = p {
            r.push(p);
        }
        i = i + 1;
    }
    proof {
        assert(ids_of(package_views(r@)) =~= ov);
    }
    r
}

} // verus!

verus! {

// ---------------------------------------------------------------------------
// ADK location, installation results and DISM output
// ---------------------------------------------------------------------------

/// Where the ADK's optional components were found.
#[derive(Debug, Clone)]
pub struct AdkLocation {
    pub found: bool,
    pub base_path: String,
    /// Folder holding the optional component `.cab` files.
    pub winpe_ocs_path: String,
    /// amd64, x86 or arm64.
    pub architecture: String,
    pub version: String,
}

/// The result of installing one package.
#[derive(Debug)]
pub struct PackageInstallResult {
    pub package_id: String,
    pub package_name: String,
    pub success: bool,
    pub message: String,
}

/// The ADK release named by the kit's manifest text (`None` when it could
/// not be read).
pub open spec fn adk_version_text(manifest: Option<Seq<char>>) -> Seq<char> {
    match manifest {
        Some(c) => if contains(c, "10.0.26100"@) {
            "10.1.26100 (Windows 11 24H2)"@
        } else if contains(c, "10.0.25398"@) {
            "10.1.25398 (Windows 11 23H2)"@
        } else if contains(c, "10.0.22621"@) {
            "10.1.22621 (Windows 11 22H2)"@
        } else if contains(c, "10.0.22000"@) {
            "10.1.22000 (Windows 11 21H2)"@
        } else if contains(c, "10.0.19041"@) {
            "10.1.19041 (Windows 10 2004)"@
        } else {
            "Windows 10/11 ADK"@
        },
        None => "Windows 10/11 ADK"@,
    }
}

/// The ADK release named by the text of its `SDKManifest.xml`, or a generic
/// name when the manifest is missing or names no known release.
pub fn adk_version_from_manifest(manifest: Option<&str>) -> (r: String)
    ensures
        r@ == adk_version_text(match manifest {
            Some(c) => Some(c@),
            None => None,
        }),
{
    match manifest {
        Some(c) => {
            if str_contains(c, "10.0.26100") {
                String::from_str("10.1.26100 (Windows 11 24H2)")
            } else if str_contains(c, "10.0.25398") {
                String::from_str("10.1.25398 (Windows 11 23H2)")
            } else if str_contains(c, "10.0.22621") {
                String::from_str("10.1.22621 (Windows 11 22H2)")
            } else if str_contains(c, "10.0.22000") {
                String::from_str("10.1.22000 (Windows 11 21H2)")
            } else if str_contains(c, "10.0.19041") {
                String::from_str("10.1.19041 (Windows 10 2004)")
            } else {
                String::from_str("Windows 10/11 ADK")
            }
        },
        None => String::from_str("Windows 10/11 ADK"),
    }
}

/// The `.cab` file names of a package: the base package and its en-us
/// language resources.
pub fn package_cab_names(package: &AdkPackage) -> (r: (String, String))
    ensures
        r.0@ == package.package_name@ + ".cab"@,
        r.1@ == package.package_name@ + "_en-us.cab"@,
{
    let mut base = String::from_str(package.package_name);
    push_str(&mut base, ".cab");
    let mut lang = String::from_str(package.package_name);
    push_str(&mut lang, "_en-us.cab");
    (base, lang)
}

/// DISM said the package is already installed, which is not a failure.
pub fn dism_reports_already_installed(stdout: &str, stderr: &str) -> (r: bool)
    ensures
        r == (contains(stdout@, "is already installed"@) || contains(stderr@, "is already installed"@)),
{
    str_contains(stdout, "is already installed") || str_contains(stderr, "is already installed")
}

/// Whether DISM's package listing mentions `package_name`.
pub fn package_listed(dism_output: &str, package_name: &str) -> (r: bool)
    ensures
        r == contains(dism_output@, package_name@),
{
    str_contains(dism_output, package_name)
}

/// The package identities in DISM's `/Get-Packages` listing: for each line
/// holding "Package Identity :", the trimmed text after its first colon.
pub open spec fn installed_identities(ls: Seq<Seq<char>>) -> Seq<Seq<char>>
    decreases ls.len(),
{
    if ls.len() == 0 {
        Seq::empty()
    } else {
        let rest = installed_identities(ls.drop_last());
        let line = ls.last();
        if contains(line, "Package Identity :"@) && split(line, ':').len() > 1 {
            rest.push(trim(split(line, ':')[1]))
        } else {
            rest
        }
    }
}

/// Reads the package identities out of DISM's `/Get-Packages` listing.
pub fn parse_installed_packages(dism_output: &str) -> (r: Vec<String>)
    ensures
        strings_of(r@) == installed_identities(lines(dism_output@)),
{
    let text = to_chars(dism_output);
    let ls = split_lines(text.as_slice());
    let ghost lv = seqs_of(ls@);
    let mut r: Vec<String> = Vec::new();
    let mut i: usize = 0;
    while i < ls.len()
        invariant
            i <= ls@.len(),
            lv == seqs_of(ls@),
            lv == lines(dism_output@),
            strings_of(r@) == installed_identities(lv.take(i as int)),
        decreases ls@.len() - i,
    {
        let line = ls[i].as_slice();
        proof {
            assert(lv.take(i + 1).drop_last() =~= lv.take(i as int));
            assert(lv.take(i + 1).last() == line@);
        }
        if chars_contain(line, "Package Identity :") {
            let parts = split_char(line, ':');
            if parts.len() > 1 {
                proof {
                    assert(seqs_of(parts@)[1] == parts@[1]@);
                }
                let name = trim_chars(parts[1].as_slice());
                let ghost before = r@;
                r.push(string_from(name.as_slice()));
                proof {
                    lemma_strings_of_push(before, r@.last());
                }
            }
        }
        i = i + 1;
    }
    proof {
        assert(lv.take(lv.len() as int) =~= lv);
    }
    r
}


/// How running DISM to add the base package went.
pub enum DismRun {
    /// DISM ran, successfully or not, with what it printed.
    Ran { success: bool, stdout: String, stderr: String },
    /// DISM could not be started.
    Failed(String),
}

/// The result of installing a package: a missing base `.cab` fails, so does
/// DISM not starting, and so does DISM failing unless it says the package is
/// already installed; otherwise the package counts as installed (its
/// language resources are optional).
pub fn install_result(package: &AdkPackage, base_cab: &str, base_found: bool, dism: DismRun) -> (r:
    PackageInstallResult)
    ensures
        r.package_id@ == package.id@,
        r.package_name@ == package.display_name@,
        !base_found ==> !r.success && r.message@ == "Package not found: "@ + base_cab@,
        base_found ==> match dism {
            DismRun::Failed(e) => !r.success && r.message@ == "Failed to run DISM: "@ + e@,
            DismRun::Ran { success, stdout, stderr } => if !success && !(contains(
                stdout@,
                "is already installed"@,
            ) || contains(stderr@, "is already installed"@)) {
                !r.success && r.message@ == "DISM failed: "@ + stdout@ + "\n"@ + stderr@
            } else {
                r.success && r.message@ == "Installed successfully"@
            },
        },
{
    let package_id = String::from_str(package.id);
    let package_name = String::from_str(package.display_name);
    if !base_found {
        let mut m = String::from_str("Package not found: ");
        push_str(&mut m, base_cab);
        return PackageInstallResult { package_id, package_name, success: false, message: m };
    }
    match dism {
        DismRun::Failed(e) => {
            let mut m = String::from_str("Failed to run DISM: ");
            push_str(&mut m, e.as_str());
            PackageInstallResult { package_id, package_name, success: false, message: m }
        },
        DismRun::Ran { success, stdout, stderr } => {
            if !success && !dism_reports_already_installed(stdout.as_str(), stderr.as_str()) {
                let mut m = String::from_str("DISM failed: ");
                push_str(&mut m, stdout.as_str());
                push_str(&mut m, "\n");
                push_str(&mut m, stderr.as_str());
                PackageInstallResult { package_id, package_name, success: false, message: m }
            } else {
                PackageInstallResult {
                    package_id,
                    package_name,
                    success: true,
                    message: String::from_str("Installed successfully"),
                }
            }
        },
    }
}

/// The folder of the WinPE optional components for an architecture under
/// an ADK installation folder.
pub fn winpe_ocs_path(adk_base: &str, architecture: &str) -> (r: String)
    ensures
        r@ == join_path(
            join_path(
                join_path(
                    join_path(adk_base@, "Assessment and Deployment Kit"@),
                    "Windows Preinstallation Environment"@,
                ),
                architecture@,
            ),
            "WinPE_OCs"@,
        ),
{
    let a = join(adk_base, "Assessment and Deployment Kit");
    let b = join(a.as_str(), "Windows Preinstallation Environment");
    let c = join(b.as_str(), architecture);
    join(c.as_str(), "WinPE_OCs")
}

/// Where the ADK is looked for, in order.
pub fn adk_base_candidates() -> (r: Vec<&'static str>)
    ensures
        r@.len() == 2,
        r@[0]@ == r"C:\Program Files (x86)\Windows Kits\10"@,
        r@[1]@ == r"C:\Program Files\Windows Kits\10"@,
{
    vec![r"C:\Program Files (x86)\Windows Kits\10", r"C:\Program Files\Windows Kits\10"]
}

} // verus!
