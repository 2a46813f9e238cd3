//! The commands that Windows runs at the first logon of the installed
//! system: one per enabled tweak, in a fixed order, rendered as
//! `<SynchronousCommand>` elements with consecutive `<Order>` numbers.

use vstd::prelude::*;
use crate::deploy::DeployConfig;
use crate::text::{decimal, push_decimal, push_str};
use crate::unattend::{escape, push_escaped};

verus! {

// ---------------------------------------------------------------------------
// Commands and their rendering
// ---------------------------------------------------------------------------

/// What a first-logon command is, as text.
pub enum LogonCommandView {
    Registry {
        description: Seq<char>,
        key: Seq<char>,
        value: Seq<char>,
        reg_type: Seq<char>,
        data: Seq<char>,
    },
    Raw { description: Seq<char>, command: Seq<char> },
    PowerShell { description: Seq<char>, command: Seq<char> },
}

/// One first-logon command: a registry value to set, a command line, or a
/// PowerShell command.
pub enum LogonCommand {
    Registry { description: String, key: String, value: String, reg_type: String, data: String },
    Raw { description: String, command: String },
    PowerShell { description: String, command: String },
}

impl View for LogonCommand {
    type V = LogonCommandView;

    open spec fn view(&self) -> LogonCommandView {
        match self {
            LogonCommand::Registry { description, key, value, reg_type, data } => {
                LogonCommandView::Registry {
                    description: description@,
                    key: key@,
                    value: value@,
                    reg_type: reg_type@,
                    data: data@,
                }
            },
            LogonCommand::Raw { description, command } => LogonCommandView::Raw {
                description: description@,
                command: command@,
            },
            LogonCommand::PowerShell { description, command } => LogonCommandView::PowerShell {
                description: description@,
                command: command@,
            },
        }
    }
}

pub open spec fn views(s: Seq<LogonCommand>) -> Seq<LogonCommandView> {
    s.map_values(|c: LogonCommand| c@)
}

pub open spec fn reg(
    description: &str,
    key: &str,
    value: &str,
    reg_type: &str,
    data: &str,
) -> LogonCommandView {
    LogonCommandView::Registry {
        description: description@,
        key: key@,
        value: value@,
        reg_type: reg_type@,
        data: data@,
    }
}

pub open spec fn raw(description: &str, command: &str) -> LogonCommandView {
    LogonCommandView::Raw { description: description@, command: command@ }
}

pub open spec fn description_of(cmd: LogonCommandView) -> Seq<char> {
    match cmd {
        LogonCommandView::Registry { description, .. } => description,
        LogonCommandView::Raw { description, .. } => description,
        LogonCommandView::PowerShell { description, .. } => description,
    }
}

/// The `<CommandLine>` text of a command (already escaped for XML).
pub open spec fn command_line(cmd: LogonCommandView) -> Seq<char> {
    match cmd {
        LogonCommandView::Registry { key, value, reg_type, data, .. } => "reg add &quot;"@ + escape(
            key,
        ) + "&quot; /v "@ + escape(value) + " /t "@ + escape(reg_type) + " /d "@ + escape(data)
            + " /f"@,
        LogonCommandView::Raw { command, .. } => escape(command),
        LogonCommandView::PowerShell { command, .. } =>
            "powershell -ExecutionPolicy Bypass -NoProfile -Command &quot;"@ + escape(command)
                + "&quot;"@,
    }
}

/// One `<SynchronousCommand>` element with the given order number.
pub open spec fn render_command(cmd: LogonCommandView, order: nat) -> Seq<char> {
    "                <SynchronousCommand wcm:action=\"add\">\n                    <Order>"@ + decimal(
        order,
    ) + "</Order>\n                    <CommandLine>"@ + command_line(cmd)
        + "</CommandLine>\n                    <Description>"@ + escape(description_of(cmd))
        + "</Description>\n                    <RequiresUserInput>false</RequiresUserInput>\n                </SynchronousCommand>\n"@
}

/// The commands rendered one after the other, numbered from `first`.
pub open spec fn render_commands(cmds: Seq<LogonCommandView>, first: nat) -> Seq<char>
    decreases cmds.len(),
{
    if cmds.len() == 0 {
        Seq::empty()
    } else {
        render_commands(cmds.drop_last(), first) + render_command(
            cmds.last(),
            (first + cmds.len() - 1) as nat,
        )
    }
}

/// Appends the `<SynchronousCommand>` that sets a registry value.
fn add_reg_command(
    commands: &mut String,
    order: &mut u32,
    description: &str,
    key: &str,
    value: &str,
    reg_type: &str,
    data: &str,
)
    requires
        *old(order) < u32::MAX,
    ensures
        final(commands)@ == old(commands)@ + render_command(
            reg(description, key, value, reg_type, data),
            *old(order) as nat,
        ),
        *final(order) == *old(order) + 1,
{
    let ghost start = commands@;
    push_str(
        commands,
        "                <SynchronousCommand wcm:action=\"add\">\n                    <Order>",
    );
    push_decimal(commands, *order as u64);
    push_str(commands, "</Order>\n                    <CommandLine>");
    push_str(commands, "reg add &quot;");
    push_escaped(commands, key);
    push_str(commands, "&quot; /v ");
    push_escaped(commands, value);
    push_str(commands, " /t ");
    push_escaped(commands, reg_type);
    push_str(commands, " /d ");
    push_escaped(commands, data);
    push_str(commands, " /f");
    push_str(commands, "</CommandLine>\n                    <Description>");
    push_escaped(commands, description);
    push_str(
        commands,
        "</Description>\n                    <RequiresUserInput>false</RequiresUserInput>\n                </SynchronousCommand>\n",
    );
    *order = *order + 1;
    proof {
        assert(commands@ =~= start + render_command(
            reg(description, key, value, reg_type, data),
            *old(order) as nat,
        ));
    }
}

/// Appends the `<SynchronousCommand>` that runs a command line.
fn add_raw_command(commands: &mut String, order: &mut u32, description: &str, command: &str)
    requires
        *old(order) < u32::MAX,
    ensures
        final(commands)@ == old(commands)@ + render_command(
            LogonCommandView::Raw { description: description@, command: command@ },
            *old(order) as nat,
        ),
        *final(order) == *old(order) + 1,
{
    let ghost start = commands@;
    push_str(
        commands,
        "                <SynchronousCommand wcm:action=\"add\">\n                    <Order>",
    );
    push_decimal(commands, *order as u64);
    push_str(commands, "</Order>\n                    <CommandLine>");
    push_escaped(commands, command);
    push_str(commands, "</CommandLine>\n                    <Description>");
    push_escaped(commands, description);
    push_str(
        commands,
        "</Description>\n                    <RequiresUserInput>false</RequiresUserInput>\n                </SynchronousCommand>\n",
    );
    *order = *order + 1;
    proof {
        assert(commands@ =~= start + render_command(
            LogonCommandView::Raw { description: description@, command: command@ },
            *old(order) as nat,
        ));
    }
}

/// Appends the `<SynchronousCommand>` that runs a PowerShell command with
/// the execution policy bypassed.
fn add_ps_command(commands: &mut String, order: &mut u32, description: &str, ps_command: &str)
    requires
        *old(order) < u32::MAX,
    ensures
        final(commands)@ == old(commands)@ + render_command(
            LogonCommandView::PowerShell { description: description@, command: ps_command@ },
            *old(order) as nat,
        ),
        *final(order) == *old(order) + 1,
{
    let ghost start = commands@;
    push_str(
        commands,
        "                <SynchronousCommand wcm:action=\"add\">\n                    <Order>",
    );
    push_decimal(commands, *order as u64);
    push_str(commands, "</Order>\n                    <CommandLine>");
    push_str(commands, "powershell -ExecutionPolicy Bypass -NoProfile -Command &quot;");
    push_escaped(commands, ps_command);
    push_str(commands, "&quot;");
    push_str(commands, "</CommandLine>\n                    <Description>");
    push_escaped(commands, description);
    push_str(
        commands,
        "</Description>\n                    <RequiresUserInput>false</RequiresUserInput>\n                </SynchronousCommand>\n",
    );
    *order = *order + 1;
    proof {
        assert(commands@ =~= start + render_command(
            LogonCommandView::PowerShell { description: description@, command: ps_command@ },
            *old(order) as nat,
        ));
    }
}

/// Renders a list of commands, numbered from 1.
pub fn render_first_logon_commands(list: &Vec<LogonCommand>) -> (r: String)
    requires
        list@.len() < u32::MAX,
    ensures
        r@ == render_commands(views(list@), 1),
{
    let mut commands = String::new();
    let mut order: u32 = 1;
    let mut i: usize = 0;
    while i < list.len()
        invariant
            i <= list@.len(),
            list@.len() < u32::MAX,
            order == i + 1,
            commands@ == render_commands(views(list@).take(i as int), 1),
        decreases list@.len() - i,
    {
        let ghost before = commands@;
        match &list[i] {
            LogonCommand::Registry { description, key, value, reg_type, data } => {
                add_reg_command(
                    &mut commands,
                    &mut order,
                    description.as_str(),
                    key.as_str(),
                    value.as_str(),
                    reg_type.as_str(),
                    data.as_str(),
                );
            },
            LogonCommand::Raw { description, command } => {
                add_raw_command(&mut commands, &mut order, description.as_str(), command.as_str());
            },
            LogonCommand::PowerShell { description, command } => {
                add_ps_command(&mut commands, &mut order, description.as_str(), command.as_str());
            },
        }
        proof {
            let s = views(list@);
            assert(s.take(i + 1).drop_last() =~= s.take(i as int));
            assert(s.take(i + 1).last() == s[i as int]);
            assert(s[i as int] == list@[i as int]@);
            assert(commands@ == before + render_command(s[i as int], (i + 1) as nat));
        }
        i = i + 1;
    }
    proof {
        assert(views(list@).take(list@.len() as int) =~= views(list@));
    }
    commands
}


// ---------------------------------------------------------------------------
// Which commands a configuration asks for
// ---------------------------------------------------------------------------

fn registry(description: &str, key: &str, value: &str, reg_type: &str, data: &str) -> (r:
    LogonCommand)
    ensures
        r@ == reg(description, key, value, reg_type, data),
{
    LogonCommand::Registry {
        description: description.to_owned(),
        key: key.to_owned(),
        value: value.to_owned(),
        reg_type: reg_type.to_owned(),
        data: data.to_owned(),
    }
}

fn raw_command(description: &str, command: &str) -> (r: LogonCommand)
    ensures
        r@ == raw(description, command),
{
    LogonCommand::Raw { description: description.to_owned(), command: command.to_owned() }
}

fn push_command(list: &mut Vec<LogonCommand>, cmd: LogonCommand)
    ensures
        views(final(list)@) == views(old(list)@).push(cmd@),
        final(list)@.len() == old(list)@.len() + 1,
{
    let ghost v = cmd@;
    list.push(cmd);
    proof {
        assert(views(list@) =~= views(old(list)@).push(v));
    }
}

/// The command that sets the taskbar search box mode (1 = icon, 2 = hidden).
pub open spec fn taskbar_search_command(mode: u8) -> LogonCommandView {
    LogonCommandView::Registry {
        description: "Configure Taskbar Search"@,
        key: r"HKCU\SOFTWARE\Microsoft\Windows\CurrentVersion\Search"@,
        value: "SearchboxTaskbarMode"@,
        reg_type: "REG_DWORD"@,
        data: decimal(mode as nat),
    }
}

/// `s` with every `'` doubled, as a PowerShell single-quoted string needs.
pub open spec fn double_quotes(s: Seq<char>) -> Seq<char>
    decreases s.len(),
{
    if s.len() == 0 {
        Seq::empty()
    } else {
        (if s[0] == '\'' {
            seq!['\'', '\'']
        } else {
            seq![s[0]]
        }) + double_quotes(s.drop_first())
    }
}

proof fn lemma_double_quotes_push(s: Seq<char>, c: char)
    ensures
        double_quotes(s.push(c)) == double_quotes(s) + (if c == '\'' {
            seq!['\'', '\'']
        } else {
            seq![c]
        }),
    decreases s.len(),
{
    if s.len() == 0 {
        assert(s.push(c).drop_first() =~= s);
        assert(double_quotes(s) =~= Seq::<char>::empty());
    } else {
        lemma_double_quotes_push(s.drop_first(), c);
        assert(s.push(c).drop_first() =~= s.drop_first().push(c));
        assert(s.push(c)[0] == s[0]);
    }
}

/// Appends `double_quotes(s)`.
fn push_double_quoted(out: &mut String, s: &str)
    ensures
        final(out)@ == old(out)@ + double_quotes(s@),
{
    let cs = crate::text::to_chars(s);
    let ghost start = out@;
    let mut i: usize = 0;
    while i < cs.len()
        invariant
            i <= cs@.len(),
            out@ == start + double_quotes(cs@.take(i as int)),
        decreases cs@.len() - i,
    {
        let c = cs[i];
        if c == '\'' {
            out.push('\'');
            out.push('\'');
        } else {
            out.push(c);
        }
        proof {
            assert(cs@.take(i + 1) =~= cs@.take(i as int).push(c));
            lemma_double_quotes_push(cs@.take(i as int), c);
        }
        i = i + 1;
    }
    proof {
        assert(cs@.take(cs@.len() as int) =~= cs@);
    }
}

/// The PowerShell command that joins the computer to a domain and restarts.
pub open spec fn domain_join_script(domain: Seq<char>, user: Seq<char>, password: Seq<char>) -> Seq<
    char,
> {
    "Add-Computer -DomainName '"@ + double_quotes(domain)
        + "' -Credential (New-Object PSCredential('"@ + double_quotes(user)
        + "', (ConvertTo-SecureString '"@ + double_quotes(password)
        + "' -AsPlainText -Force)))"@ + " -Restart -Force"@
}

/// `s` followed by the domain join, when it is asked for with a domain name.
pub open spec fn with_domain_join(s: Seq<LogonCommandView>, c: DeployConfig) -> Seq<
    LogonCommandView,
> {
    if c.join_domain && c.domain_name@.len() > 0 {
        s.push(
            LogonCommandView::PowerShell {
                description: "Join Domain"@,
                command: domain_join_script(
                    c.domain_name@,
                    c.domain_username@,
                    c.domain_password@,
                ),
            },
        )
    } else {
        s
    }
}

/// The command that every answer file carries.
pub open spec fn password_never_expires() -> LogonCommandView {
    raw("Set password to never expire", "net accounts /maxpwage:unlimited")
}

/// The command that runs the post-install scripts.
pub open spec fn run_post_install_scripts() -> LogonCommandView {
    raw("Run MasterBooter post-install scripts", r#"cmd /c "C:\Temp\MasterBooter\RunAll.bat""#)
}

/// All first-logon commands for a configuration: the enabled tweaks by
/// category (privacy, security, performance, appearance, bloatware), the
/// domain join, the password policy, and last the post-install scripts
/// when there are any.
pub open spec fn first_logon_commands(c: DeployConfig, has_scripts: bool) -> Seq<
    LogonCommandView,
> {
    let s = with_privacy(Seq::empty(), c);
    let s = with_security(s, c);
    let s = with_performance(s, c);
    let s = with_appearance(s, c);
    let s = with_bloatware(s, c);
    let s = with_domain_join(s, c);
    let s = s.push(password_never_expires());
    if has_scripts {
        s.push(run_post_install_scripts())
    } else {
        s
    }
}

/// `s` followed by the privacy and telemetry commands that `c` enables.
pub open spec fn with_privacy(s: Seq<LogonCommandView>, c: DeployConfig) -> Seq<LogonCommandView> {
    let s = if c.disable_telemetry {
        s.push(reg("Disable Telemetry", r"HKLM\SOFTWARE\Policies\Microsoft\Windows\DataCollection", "AllowTelemetry", "REG_DWORD", "0")).push(reg("Disable Telemetry (user)", r"HKCU\SOFTWARE\Microsoft\Windows\CurrentVersion\Privacy", "TailoredExperiencesWithDiagnosticDataEnabled", "REG_DWORD", "0"))
    } else {
        s
    };
    let s = if c.disable_location {
        s.push(reg("Disable Location Tracking", r"HKLM\SOFTWARE\Microsoft\Windows\CurrentVersion\CapabilityAccessManager\ConsentStore\location", "Value", "REG_SZ", "Deny"))
    } else {
        s
    };
    let s = if c.disable_ads {
        s.push(reg("Disable Advertising ID", r"HKCU\SOFTWARE\Microsoft\Windows\CurrentVersion\AdvertisingInfo", "Enabled", "REG_DWORD", "0"))
    } else {
        s
    };
    let s = if c.disable_suggested_apps {
        s.push(reg("Disable Suggested Apps", r"HKCU\SOFTWARE\Microsoft\Windows\CurrentVersion\ContentDeliveryManager", "SubscribedContent-338388Enabled", "REG_DWORD", "0")).push(reg("Disable Suggested Apps (2)", r"HKCU\SOFTWARE\Microsoft\Windows\CurrentVersion\ContentDeliveryManager", "SubscribedContent-338389Enabled", "REG_DWORD", "0")).push(reg("Disable Suggested Apps (3)", r"HKCU\SOFTWARE\Microsoft\Windows\CurrentVersion\ContentDeliveryManager", "SystemPaneSuggestionsEnabled", "REG_DWORD", "0"))
    } else {
        s
    };
    let s = if c.disable_bing_search {
        s.push(reg("Disable Bing Search in Start", r"HKCU\SOFTWARE\Policies\Microsoft\Windows\Explorer", "DisableSearchBoxSuggestions", "REG_DWORD", "1"))
    } else {
        s
    };
    let s = if c.disable_smartscreen {
        s.push(reg("Disable SmartScreen", r"HKLM\SOFTWARE\Policies\Microsoft\Windows\System", "EnableSmartScreen", "REG_DWORD", "0"))
    } else {
        s
    };
    s
}

fn push_privacy_commands(list: &mut Vec<LogonCommand>, c: &DeployConfig)
    ensures
        views(final(list)@) == with_privacy(views(old(list)@), *c),
        final(list)@.len() <= old(list)@.len() + 9,
{
    if c.disable_telemetry {
        push_command(list, registry("Disable Telemetry", r"HKLM\SOFTWARE\Policies\Microsoft\Windows\DataCollection", "AllowTelemetry", "REG_DWORD", "0"));
        push_command(list, registry("Disable Telemetry (user)", r"HKCU\SOFTWARE\Microsoft\Windows\CurrentVersion\Privacy", "TailoredExperiencesWithDiagnosticDataEnabled", "REG_DWORD", "0"));
    }
    if c.disable_location {
        push_command(list, registry("Disable Location Tracking", r"HKLM\SOFTWARE\Microsoft\Windows\CurrentVersion\CapabilityAccessManager\ConsentStore\location", "Value", "REG_SZ", "Deny"));
    }
    if c.disable_ads {
        push_command(list, registry("Disable Advertising ID", r"HKCU\SOFTWARE\Microsoft\Windows\CurrentVersion\AdvertisingInfo", "Enabled", "REG_DWORD", "0"));
    }
    if c.disable_suggested_apps {
        push_command(list, registry("Disable Suggested Apps", r"HKCU\SOFTWARE\Microsoft\Windows\CurrentVersion\ContentDeliveryManager", "SubscribedContent-338388Enabled", "REG_DWORD", "0"));
        push_command(list, registry("Disable Suggested Apps (2)", r"HKCU\SOFTWARE\Microsoft\Windows\CurrentVersion\ContentDeliveryManager", "SubscribedContent-338389Enabled", "REG_DWORD", "0"));
        push_command(list, registry("Disable Suggested Apps (3)", r"HKCU\SOFTWARE\Microsoft\Windows\CurrentVersion\ContentDeliveryManager", "SystemPaneSuggestionsEnabled", "REG_DWORD", "0"));
    }
    if c.disable_bing_search {
        push_command(list, registry("Disable Bing Search in Start", r"HKCU\SOFTWARE\Policies\Microsoft\Windows\Explorer", "DisableSearchBoxSuggestions", "REG_DWORD", "1"));
    }
    if c.disable_smartscreen {
        push_command(list, registry("Disable SmartScreen", r"HKLM\SOFTWARE\Policies\Microsoft\Windows\System", "EnableSmartScreen", "REG_DWORD", "0"));
    }
}

/// `s` followed by the security commands that `c` enables.
pub open spec fn with_security(s: Seq<LogonCommandView>, c: DeployConfig) -> Seq<LogonCommandView> {
    let s = if c.enable_rdp {
        s.push(reg("Enable RDP", r"HKLM\SYSTEM\CurrentControlSet\Control\Terminal Server", "fDenyTSConnections", "REG_DWORD", "0")).push(raw("Allow RDP through firewall", "netsh advfirewall firewall set rule group=&quot;Remote Desktop&quot; new enable=Yes"))
    } else {
        s
    };
    let s = if c.disable_uac {
        s.push(reg("Disable UAC", r"HKLM\SOFTWARE\Microsoft\Windows\CurrentVersion\Policies\System", "EnableLUA", "REG_DWORD", "0"))
    } else {
        s
    };
    let s = if c.disable_defender {
        s.push(reg("Disable Windows Defender", r"HKLM\SOFTWARE\Policies\Microsoft\Windows Defender", "DisableAntiSpyware", "REG_DWORD", "1")).push(reg("Disable Real-Time Protection", r"HKLM\SOFTWARE\Policies\Microsoft\Windows Defender\Real-Time Protection", "DisableRealtimeMonitoring", "REG_DWORD", "1"))
    } else {
        s
    };
    let s = if c.disable_firewall {
        s.push(raw("Disable Firewall (Domain)", "netsh advfirewall set domainprofile state off")).push(raw("Disable Firewall (Private)", "netsh advfirewall set privateprofile state off")).push(raw("Disable Firewall (Public)", "netsh advfirewall set publicprofile state off"))
    } else {
        s
    };
    let s = if c.disable_vbs {
        s.push(reg("Disable VBS/Core Isolation", r"HKLM\SYSTEM\CurrentControlSet\Control\DeviceGuard", "EnableVirtualizationBasedSecurity", "REG_DWORD", "0"))
    } else {
        s
    };
    let s = if c.disable_bitlocker {
        s.push(reg("Disable BitLocker Auto-Encryption", r"HKLM\SYSTEM\CurrentControlSet\Control\BitLocker", "PreventDeviceEncryption", "REG_DWORD", "1"))
    } else {
        s
    };
    s
}

fn push_security_commands(list: &mut Vec<LogonCommand>, c: &DeployConfig)
    ensures
        views(final(list)@) == with_security(views(old(list)@), *c),
        final(list)@.len() <= old(list)@.len() + 10,
{
    if c.enable_rdp {
        push_command(list, registry("Enable RDP", r"HKLM\SYSTEM\CurrentControlSet\Control\Terminal Server", "fDenyTSConnections", "REG_DWORD", "0"));
        push_command(list, raw_command("Allow RDP through firewall", "netsh advfirewall firewall set rule group=&quot;Remote Desktop&quot; new enable=Yes"));
    }
    if c.disable_uac {
        push_command(list, registry("Disable UAC", r"HKLM\SOFTWARE\Microsoft\Windows\CurrentVersion\Policies\System", "EnableLUA", "REG_DWORD", "0"));
    }
    if c.disable_defender {
        push_command(list, registry("Disable Windows Defender", r"HKLM\SOFTWARE\Policies\Microsoft\Windows Defender", "DisableAntiSpyware", "REG_DWORD", "1"));
        push_command(list, registry("Disable Real-Time Protection", r"HKLM\SOFTWARE\Policies\Microsoft\Windows Defender\Real-Time Protection", "DisableRealtimeMonitoring", "REG_DWORD", "1"));
    }
    if c.disable_firewall {
        push_command(list, raw_command("Disable Firewall (Domain)", "netsh advfirewall set domainprofile state off"));
        push_command(list, raw_command("Disable Firewall (Private)", "netsh advfirewall set privateprofile state off"));
        push_command(list, raw_command("Disable Firewall (Public)", "netsh advfirewall set publicprofile state off"));
    }
    if c.disable_vbs {
        push_command(list, registry("Disable VBS/Core Isolation", r"HKLM\SYSTEM\CurrentControlSet\Control\DeviceGuard", "EnableVirtualizationBasedSecurity", "REG_DWORD", "0"));
    }
    if c.disable_bitlocker {
        push_command(list, registry("Disable BitLocker Auto-Encryption", r"HKLM\SYSTEM\CurrentControlSet\Control\BitLocker", "PreventDeviceEncryption", "REG_DWORD", "1"));
    }
}

/// `s` followed by the performance commands that `c` enables.
pub open spec fn with_performance(s: Seq<LogonCommandView>, c: DeployConfig) -> Seq<LogonCommandView> {
    let s = if c.disable_fast_startup {
        s.push(reg("Disable Fast Startup", r"HKLM\SYSTEM\CurrentControlSet\Control\Session Manager\Power", "HiberbootEnabled", "REG_DWORD", "0"))
    } else {
        s
    };
    let s = if c.high_performance {
        s.push(raw("Set High Performance Power Plan", "powercfg /setactive 8c5e7fda-e8bf-4a96-9a85-a6e23a8c635c"))
    } else {
        s
    };
    let s = if c.disable_system_restore {
        s.push(reg("Disable System Restore", r"HKLM\SOFTWARE\Policies\Microsoft\Windows NT\SystemRestore", "DisableSR", "REG_DWORD", "1"))
    } else {
        s
    };
    s
}

fn push_performance_commands(list: &mut Vec<LogonCommand>, c: &DeployConfig)
    ensures
        views(final(list)@) == with_performance(views(old(list)@), *c),
        final(list)@.len() <= old(list)@.len() + 3,
{
    if c.disable_fast_startup {
        push_command(list, registry("Disable Fast Startup", r"HKLM\SYSTEM\CurrentControlSet\Control\Session Manager\Power", "HiberbootEnabled", "REG_DWORD", "0"));
    }
    if c.high_performance {
        push_command(list, raw_command("Set High Performance Power Plan", "powercfg /setactive 8c5e7fda-e8bf-4a96-9a85-a6e23a8c635c"));
    }
    if c.disable_system_restore {
        push_command(list, registry("Disable System Restore", r"HKLM\SOFTWARE\Policies\Microsoft\Windows NT\SystemRestore", "DisableSR", "REG_DWORD", "1"));
    }
}

/// `s` followed by the Explorer and taskbar commands that `c` enables.
pub open spec fn with_appearance(s: Seq<LogonCommandView>, c: DeployConfig) -> Seq<LogonCommandView> {
    let s = if c.show_file_extensions {
        s.push(reg("Show File Extensions", r"HKCU\SOFTWARE\Microsoft\Windows\CurrentVersion\Explorer\Advanced", "HideFileExt", "REG_DWORD", "0"))
    } else {
        s
    };
    let s = if c.show_hidden_files {
        s.push(reg("Show Hidden Files", r"HKCU\SOFTWARE\Microsoft\Windows\CurrentVersion\Explorer\Advanced", "Hidden", "REG_DWORD", "1"))
    } else {
        s
    };
    let s = if c.classic_context_menu {
        s.push(reg("Classic Context Menu (Win11)", r"HKCU\Software\Classes\CLSID\{86ca1aa0-34aa-4e8b-a509-50c905bae2a2}\InprocServer32", "", "REG_SZ", ""))
    } else {
        s
    };
    let s = if c.taskbar_search_mode > 0 {
        s.push(taskbar_search_command(c.taskbar_search_mode))
    } else {
        s
    };
    let s = if c.hide_task_view {
        s.push(reg("Hide Task View Button", r"HKCU\SOFTWARE\Microsoft\Windows\CurrentVersion\Explorer\Advanced", "ShowTaskViewButton", "REG_DWORD", "0"))
    } else {
        s
    };
    let s = if c.hide_widgets {
        s.push(reg("Hide Widgets Button", r"HKCU\SOFTWARE\Microsoft\Windows\CurrentVersion\Explorer\Advanced", "TaskbarDa", "REG_DWORD", "0"))
    } else {
        s
    };
    let s = if c.taskbar_left_align {
        s.push(reg("Left-align Taskbar (Win11)", r"HKCU\SOFTWARE\Microsoft\Windows\CurrentVersion\Explorer\Advanced", "TaskbarAl", "REG_DWORD", "0"))
    } else {
        s
    };
    s
}

fn push_appearance_commands(list: &mut Vec<LogonCommand>, c: &DeployConfig)
    ensures
        views(final(list)@) == with_appearance(views(old(list)@), *c),
        final(list)@.len() <= old(list)@.len() + 7,
{
    if c.show_file_extensions {
        push_command(list, registry("Show File Extensions", r"HKCU\SOFTWARE\Microsoft\Windows\CurrentVersion\Explorer\Advanced", "HideFileExt", "REG_DWORD", "0"));
    }
    if c.show_hidden_files {
        push_command(list, registry("Show Hidden Files", r"HKCU\SOFTWARE\Microsoft\Windows\CurrentVersion\Explorer\Advanced", "Hidden", "REG_DWORD", "1"));
    }
    if c.classic_context_menu {
        push_command(list, registry("Classic Context Menu (Win11)", r"HKCU\Software\Classes\CLSID\{86ca1aa0-34aa-4e8b-a509-50c905bae2a2}\InprocServer32", "", "REG_SZ", ""));
    }
    if c.taskbar_search_mode > 0 {
        let mut data = String::new();
        push_decimal(&mut data, c.taskbar_search_mode as u64);
        push_command(list, registry("Configure Taskbar Search", r"HKCU\SOFTWARE\Microsoft\Windows\CurrentVersion\Search", "SearchboxTaskbarMode", "REG_DWORD", data.as_str()));
    }
    if c.hide_task_view {
        push_command(list, registry("Hide Task View Button", r"HKCU\SOFTWARE\Microsoft\Windows\CurrentVersion\Explorer\Advanced", "ShowTaskViewButton", "REG_DWORD", "0"));
    }
    if c.hide_widgets {
        push_command(list, registry("Hide Widgets Button", r"HKCU\SOFTWARE\Microsoft\Windows\CurrentVersion\Explorer\Advanced", "TaskbarDa", "REG_DWORD", "0"));
    }
    if c.taskbar_left_align {
        push_command(list, registry("Left-align Taskbar (Win11)", r"HKCU\SOFTWARE\Microsoft\Windows\CurrentVersion\Explorer\Advanced", "TaskbarAl", "REG_DWORD", "0"));
    }
}

/// `s` followed by the bundled-app and service commands that `c` enables.
pub open spec fn with_bloatware(s: Seq<LogonCommandView>, c: DeployConfig) -> Seq<LogonCommandView> {
    let s = if c.disable_cortana {
        s.push(reg("Disable Cortana", r"HKLM\SOFTWARE\Policies\Microsoft\Windows\Windows Search", "AllowCortana", "REG_DWORD", "0"))
    } else {
        s
    };
    let s = if c.disable_onedrive {
        s.push(reg("Disable OneDrive", r"HKLM\SOFTWARE\Policies\Microsoft\Windows\OneDrive", "DisableFileSyncNGSC", "REG_DWORD", "1"))
    } else {
        s
    };
    let s = if c.disable_teams {
        s.push(reg("Disable Teams Chat", r"HKLM\SOFTWARE\Policies\Microsoft\Windows\Windows Chat", "ChatIcon", "REG_DWORD", "3"))
    } else {
        s
    };
    let s = if c.disable_copilot {
        s.push(reg("Disable Copilot", r"HKCU\SOFTWARE\Policies\Microsoft\Windows\WindowsCopilot", "TurnOffWindowsCopilot", "REG_DWORD", "1"))
    } else {
        s
    };
    let s = if c.disable_widgets_service {
        s.push(reg("Disable Widgets Service", r"HKLM\SOFTWARE\Policies\Microsoft\Dsh", "AllowNewsAndInterests", "REG_DWORD", "0"))
    } else {
        s
    };
    s
}

fn push_bloatware_commands(list: &mut Vec<LogonCommand>, c: &DeployConfig)
    ensures
        views(final(list)@) == with_bloatware(views(old(list)@), *c),
        final(list)@.len() <= old(list)@.len() + 5,
{
    if c.disable_cortana {
        push_command(list, registry("Disable Cortana", r"HKLM\SOFTWARE\Policies\Microsoft\Windows\Windows Search", "AllowCortana", "REG_DWORD", "0"));
    }
    if c.disable_onedrive {
        push_command(list, registry("Disable OneDrive", r"HKLM\SOFTWARE\Policies\Microsoft\Windows\OneDrive", "DisableFileSyncNGSC", "REG_DWORD", "1"));
    }
    if c.disable_teams {
        push_command(list, registry("Disable Teams Chat", r"HKLM\SOFTWARE\Policies\Microsoft\Windows\Windows Chat", "ChatIcon", "REG_DWORD", "3"));
    }
    if c.disable_copilot {
        push_command(list, registry("Disable Copilot", r"HKCU\SOFTWARE\Policies\Microsoft\Windows\WindowsCopilot", "TurnOffWindowsCopilot", "REG_DWORD", "1"));
    }
    if c.disable_widgets_service {
        push_command(list, registry("Disable Widgets Service", r"HKLM\SOFTWARE\Policies\Microsoft\Dsh", "AllowNewsAndInterests", "REG_DWORD", "0"));
    }
}

/// The first-logon commands for a configuration, in the order Windows runs
/// them. `has_firstlogon_scripts` says whether post-install scripts were
/// added for the first logon.
pub fn first_logon_command_list(config: &DeployConfig, has_firstlogon_scripts: bool) -> (r: Vec<
    LogonCommand,
>)
    ensures
        views(r@) == first_logon_commands(*config, has_firstlogon_scripts),
        r@.len() <= 64,
{
    let mut list: Vec<LogonCommand> = Vec::new();
    proof {
        assert(views(list@) =~= Seq::<LogonCommandView>::empty());
    }
    push_privacy_commands(&mut list, config);
    push_security_commands(&mut list, config);
    push_performance_commands(&mut list, config);
    push_appearance_commands(&mut list, config);
    push_bloatware_commands(&mut list, config);
    if config.join_domain && config.domain_name.as_str().unicode_len() > 0 {
        let mut script = String::new();
        push_str(&mut script, "Add-Computer -DomainName '");
        push_double_quoted(&mut script, config.domain_name.as_str());
        push_str(&mut script, "' -Credential (New-Object PSCredential('");
        push_double_quoted(&mut script, config.domain_username.as_str());
        push_str(&mut script, "', (ConvertTo-SecureString '");
        push_double_quoted(&mut script, config.domain_password.as_str());
        push_str(&mut script, "' -AsPlainText -Force)))");
        push_str(&mut script, " -Restart -Force");
        proof {
            assert(script@ =~= domain_join_script(
                config.domain_name@,
                config.domain_username@,
                config.domain_password@,
            ));
        }
        push_command(
            &mut list,
            LogonCommand::PowerShell { description: "Join Domain".to_owned(), command: script },
        );
    }
    push_command(
        &mut list,
        raw_command("Set password to never expire", "net accounts /maxpwage:unlimited"),
    );
    if has_firstlogon_scripts {
        push_command(
            &mut list,
            raw_command(
                "Run MasterBooter post-install scripts",
                r#"cmd /c "C:\Temp\MasterBooter\RunAll.bat""#,
            ),
        );
    }
    list
}

/// The `<SynchronousCommand>` elements of `<FirstLogonCommands>`, numbered
/// from 1.
pub fn build_first_logon_commands(config: &DeployConfig, has_firstlogon_scripts: bool) -> (r:
    String)
    ensures
        r@ == render_commands(first_logon_commands(*config, has_firstlogon_scripts), 1),
{
    let list = first_logon_command_list(config, has_firstlogon_scripts);
    render_first_logon_commands(&list)
}

// ---------------------------------------------------------------------------
// Laws
// ---------------------------------------------------------------------------

/// `r` keeps `s` as its beginning.
pub open spec fn extends(r: Seq<LogonCommandView>, s: Seq<LogonCommandView>) -> bool {
    s.len() <= r.len() && forall|i: int| 0 <= i < s.len() ==> r[i] == s[i]
}

proof fn lemma_later_categories_extend(s: Seq<LogonCommandView>, c: DeployConfig, has_scripts: bool)
    ensures
        extends(with_bloatware(s, c), s),
        extends(with_domain_join(s, c), s),
        extends(s.push(password_never_expires()), s),
        extends(s.push(run_post_install_scripts()), s),
{
}

/// Where the hidden-files command lands among the appearance commands
/// added after `s`.
pub open spec fn hidden_files_index(s: Seq<LogonCommandView>, c: DeployConfig) -> int {
    if c.show_file_extensions {
        s.len() + 1int
    } else {
        s.len() as int
    }
}

proof fn lemma_appearance_extends(s: Seq<LogonCommandView>, c: DeployConfig)
    ensures
        extends(with_appearance(s, c), s),
        c.show_hidden_files ==> with_appearance(s, c)[hidden_files_index(s, c)] == reg(
            "Show Hidden Files",
            r"HKCU\SOFTWARE\Microsoft\Windows\CurrentVersion\Explorer\Advanced",
            "Hidden",
            "REG_DWORD",
            "1",
        ),
        c.show_hidden_files ==> hidden_files_index(s, c) < with_appearance(s, c).len(),
{
}

/// Asking to show hidden files puts, whatever else is asked for, a command
/// among the first-logon commands that sets the Explorer value `Hidden` to
/// 1 (show hidden files and folders).
pub proof fn lemma_hidden_files_shown(c: DeployConfig, has_scripts: bool)
    requires
        c.show_hidden_files,
    ensures
        exists|i: int|
            0 <= i < first_logon_commands(c, has_scripts).len() && #[trigger] first_logon_commands(c, has_scripts)[i]
                == (LogonCommandView::Registry {
                description: "Show Hidden Files"@,
                key: r"HKCU\SOFTWARE\Microsoft\Windows\CurrentVersion\Explorer\Advanced"@,
                value: "Hidden"@,
                reg_type: "REG_DWORD"@,
                data: "1"@,
            }),
{
    let s3 = with_performance(with_security(with_privacy(Seq::empty(), c), c), c);
    let s4 = with_appearance(s3, c);
    let k = hidden_files_index(s3, c);
    lemma_appearance_extends(s3, c);
    let s5 = with_bloatware(s4, c);
    lemma_later_categories_extend(s4, c, has_scripts);
    let s6 = with_domain_join(s5, c);
    lemma_later_categories_extend(s5, c, has_scripts);
    let s7 = s6.push(password_never_expires());
    lemma_later_categories_extend(s6, c, has_scripts);
    lemma_later_categories_extend(s7, c, has_scripts);
    let all = first_logon_commands(c, has_scripts);
    assert(extends(all, s7));
    assert(all[k] == s4[k]);
}

/// Whatever the configuration, the first logon sets the password policy so
/// that passwords never expire.
pub proof fn lemma_password_policy_always_set(c: DeployConfig, has_scripts: bool)
    ensures
        first_logon_commands(c, has_scripts).contains(password_never_expires()),
{
    let s = with_domain_join(
        with_bloatware(
            with_appearance(with_performance(with_security(with_privacy(Seq::empty(), c), c), c), c),
            c,
        ),
        c,
    );
    let t = s.push(password_never_expires());
    assert(t[s.len() as int] == password_never_expires());
    if has_scripts {
        assert(t.push(run_post_install_scripts())[s.len() as int] == password_never_expires());
    }
}

/// The post-install scripts run last, and are run exactly when there are
/// some.
pub proof fn lemma_scripts_run_last(c: DeployConfig, has_scripts: bool)
    ensures
        has_scripts <==> first_logon_commands(c, has_scripts).last() == run_post_install_scripts(),
{
    reveal_strlit("Set password to never expire");
    reveal_strlit("Run MasterBooter post-install scripts");
    if !has_scripts {
        assert(description_of(password_never_expires()).len() != description_of(
            run_post_install_scripts(),
        ).len());
    }
}

} // verus!
