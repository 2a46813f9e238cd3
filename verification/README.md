# MasterBooter

A Windows deployment toolkit for IT technicians: it writes unattended
answer files and drives Windows Setup, builds WinPE images from the Windows
ADK with optional components, fixes and bundled tools, fetches backup tools,
and keeps itself up to date.

The library in `src/` holds the toolkit's logic, each function with a
contract that Verus proves:

- `unattend`, `first_logon`: the autounattend.xml answer file and its
  first-logon tweak commands, with XML escaping.
- `deploy`, `command_output`: deployment settings, generic edition keys, and
  reading what DISM, diskpart and PowerShell print.
- `pipeline`: the steps of an automated or interactive installation as
  decisions between pieces of outside work, diskpart scripts, the Windows 11
  requirement bypass, installation media.
- `scripts`: post-install scripts, the RunAll.bat that runs them, profile
  names.
- `adk_packages`: the catalog of 33 ADK optional components (WMI, .NET,
  scripting, PowerShell, storage, network, security, recovery, setup, fonts
  and input) and their install order, each package after its dependencies.
  Sixteen of them are the core, PowerShell, storage, network, security and
  ADK-provided recovery components; the others are the WinRE-only recovery
  components and the added network, security, storage, setup, font and
  input packages.
- `pe_fixes`: the five offline fixes applied to a mounted WinPE image (DPI
  scaling, WallpaperHost, crash dialogs, fonts, long paths); user profile
  folders are set up at run time by the image's launcher script instead.
- `tools`, `pe_tools`: backup tools and the tools bundled into WinPE, their
  downloads and settings.
- `updater`: release checks and version comparison.
- `text`, `units`: string and number formatting the rest builds on.

`app/` is a command-line front end that does the file, process, network and
dialog work around the library. `tests/` runs the library on concrete
values.
