//! System tweaks: the PowerShell script that applies and the one that reverts
//! each tweak, what a run of one reports, and the tweak states that the status
//! query returns.

use vstd::prelude::*;
use crate::text::{same_text, trim, trimmed};

verus! {

/// Script that applies the `power` tweak.
pub const POWER_ON: &'static str = "powercfg /setactive 8c5e7fda-e8bf-4a96-9a85-a6e23a8c635c";

/// Script that reverts the `power` tweak.
pub const POWER_OFF: &'static str = "powercfg /setactive 381b4222-f694-41f0-9685-ff5bb260df2e";

/// Script that applies the `visual` tweak.
pub const VISUAL_ON: &'static str = "$p='HKCU:\\Software\\Microsoft\\Windows\\CurrentVersion\\Explorer\\VisualEffects'; if(!(Test-Path $p)){New-Item $p -Force|Out-Null}; Set-ItemProperty $p VisualFXSetting 2 -Type DWord -Force";

/// Script that reverts the `visual` tweak.
pub const VISUAL_OFF: &'static str = "$p='HKCU:\\Software\\Microsoft\\Windows\\CurrentVersion\\Explorer\\VisualEffects'; if(!(Test-Path $p)){New-Item $p -Force|Out-Null}; Set-ItemProperty $p VisualFXSetting 0 -Type DWord -Force";

/// Script that applies the `gamebar` tweak.
pub const GAMEBAR_ON: &'static str = "$k='HKCU:\\Software\\Microsoft\\GameBar'; if(!(Test-Path $k)){New-Item $k -Force|Out-Null}; Set-ItemProperty $k AllowAutoGameMode 0 -Type DWord -Force; Set-ItemProperty $k AutoGameModeEnabled 0 -Type DWord -Force";

/// Script that reverts the `gamebar` tweak.
pub const GAMEBAR_OFF: &'static str = "$k='HKCU:\\Software\\Microsoft\\GameBar'; if(!(Test-Path $k)){New-Item $k -Force|Out-Null}; Set-ItemProperty $k AllowAutoGameMode 1 -Type DWord -Force; Set-ItemProperty $k AutoGameModeEnabled 1 -Type DWord -Force";

/// Script that applies the `network` tweak.
pub const NETWORK_ON: &'static str = "netsh int tcp set global autotuninglevel=normal; try{Set-ItemProperty 'HKLM:\\SYSTEM\\CurrentControlSet\\Services\\Tcpip\\Parameters' TcpAckFrequency 1 -Type DWord -Force -EA Stop}catch{}";

/// Script that reverts the `network` tweak.
pub const NETWORK_OFF: &'static str = "netsh int tcp set global autotuninglevel=normal; try{Remove-ItemProperty 'HKLM:\\SYSTEM\\CurrentControlSet\\Services\\Tcpip\\Parameters' TcpAckFrequency -Force -EA Stop}catch{}";

/// Script that applies the `sysmain` tweak.
pub const SYSMAIN_ON: &'static str = "try{Stop-Service SysMain -Force -EA SilentlyContinue}catch{}; Set-Service SysMain -StartupType Disabled";

/// Script that reverts the `sysmain` tweak.
pub const SYSMAIN_OFF: &'static str = "Set-Service SysMain -StartupType Automatic; try{Start-Service SysMain -EA Stop}catch{}";

/// Script that applies the `priority` tweak.
pub const PRIORITY_ON: &'static str = "Set-ItemProperty 'HKLM:\\SYSTEM\\CurrentControlSet\\Control\\PriorityControl' Win32PrioritySeparation 38 -Type DWord -Force";

/// Script that reverts the `priority` tweak.
pub const PRIORITY_OFF: &'static str = "Set-ItemProperty 'HKLM:\\SYSTEM\\CurrentControlSet\\Control\\PriorityControl' Win32PrioritySeparation 2 -Type DWord -Force";

/// Script that applies the `wsearch` tweak.
pub const WSEARCH_ON: &'static str = "try{Stop-Service WSearch -Force -EA SilentlyContinue}catch{}; Set-Service WSearch -StartupType Disabled";

/// Script that reverts the `wsearch` tweak.
pub const WSEARCH_OFF: &'static str = "Set-Service WSearch -StartupType Manual; try{Start-Service WSearch -EA Stop}catch{}";

/// Script that applies the `gamemode` tweak.
pub const GAMEMODE_ON: &'static str = "$k='HKCU:\\Software\\Microsoft\\GameBar'; if(!(Test-Path $k)){New-Item $k -Force|Out-Null}; Set-ItemProperty $k AllowAutoGameMode 1 -Type DWord -Force; Set-ItemProperty $k AutoGameModeEnabled 1 -Type DWord -Force";

/// Script that reverts the `gamemode` tweak.
pub const GAMEMODE_OFF: &'static str = "$k='HKCU:\\Software\\Microsoft\\GameBar'; if(!(Test-Path $k)){New-Item $k -Force|Out-Null}; Set-ItemProperty $k AllowAutoGameMode 0 -Type DWord -Force; Set-ItemProperty $k AutoGameModeEnabled 0 -Type DWord -Force";

/// Script that applies the `hags` tweak.
pub const HAGS_ON: &'static str = "$p='HKLM:\\SYSTEM\\CurrentControlSet\\Control\\GraphicsDrivers'; if(!(Test-Path $p)){New-Item $p -Force|Out-Null}; Set-ItemProperty $p HwSchMode 2 -Type DWord -Force";

/// Script that reverts the `hags` tweak.
pub const HAGS_OFF: &'static str = "Set-ItemProperty 'HKLM:\\SYSTEM\\CurrentControlSet\\Control\\GraphicsDrivers' HwSchMode 1 -Type DWord -Force";

/// Script that applies the `core_parking` tweak.
pub const CORE_PARKING_ON: &'static str = "powercfg -setacvalueindex SCHEME_CURRENT 54533251-82be-4824-96c1-47b60b740d00 0cc5b647-c1df-4637-891a-dec35c318583 100; powercfg -setdcvalueindex SCHEME_CURRENT 54533251-82be-4824-96c1-47b60b740d00 0cc5b647-c1df-4637-891a-dec35c318583 100; powercfg -s SCHEME_CURRENT";

/// Script that reverts the `core_parking` tweak.
pub const CORE_PARKING_OFF: &'static str = "powercfg -setacvalueindex SCHEME_CURRENT 54533251-82be-4824-96c1-47b60b740d00 0cc5b647-c1df-4637-891a-dec35c318583 0; powercfg -setdcvalueindex SCHEME_CURRENT 54533251-82be-4824-96c1-47b60b740d00 0cc5b647-c1df-4637-891a-dec35c318583 0; powercfg -s SCHEME_CURRENT";

/// Script that applies the `power_throttling` tweak.
pub const POWER_THROTTLING_ON: &'static str = "$p='HKLM:\\SYSTEM\\CurrentControlSet\\Control\\Power\\PowerThrottling'; if(!(Test-Path $p)){New-Item $p -Force|Out-Null}; Set-ItemProperty $p PowerThrottlingOff 1 -Type DWord -Force";

/// Script that reverts the `power_throttling` tweak.
pub const POWER_THROTTLING_OFF: &'static str = "try{Remove-ItemProperty 'HKLM:\\SYSTEM\\CurrentControlSet\\Control\\Power\\PowerThrottling' PowerThrottlingOff -Force -EA Stop}catch{}";

/// Script that applies the `timer_res` tweak.
pub const TIMER_RES_ON: &'static str = "bcdedit /set useplatformtick yes; bcdedit /set disabledynamictick no";

/// Script that reverts the `timer_res` tweak.
pub const TIMER_RES_OFF: &'static str = "bcdedit /deletevalue useplatformtick; bcdedit /set disabledynamictick no";

/// Script that applies the `msi_mode` tweak.
pub const MSI_MODE_ON: &'static str = r#"$ok=$true; try { $disp=Get-PnpDevice -Class Display -EA Stop|Where-Object{$_.Status -eq 'OK'}; foreach($d in $disp){$p="HKLM:\SYSTEM\CurrentControlSet\Enum\$($d.InstanceId)\Device Parameters\Interrupt Management\MessageSignaledInterruptProperties"; if(!(Test-Path $p)){New-Item $p -Force|Out-Null}; Set-ItemProperty $p MSISupported 1 -Type DWord -Force} } catch{$ok=$false}; try { $nets=Get-PnpDevice -Class Net -EA Stop|Where-Object{$_.Status -eq 'OK'}; foreach($n in $nets){$p="HKLM:\SYSTEM\CurrentControlSet\Enum\$($n.InstanceId)\Device Parameters\Interrupt Management\MessageSignaledInterruptProperties"; if(!(Test-Path $p)){New-Item $p -Force|Out-Null}; Set-ItemProperty $p MSISupported 1 -Type DWord -Force} } catch{$ok=$false}; $ok"#;

/// Script that reverts the `msi_mode` tweak.
pub const MSI_MODE_OFF: &'static str = r#"$ok=$true; try{$disp=Get-PnpDevice -Class Display -EA Stop|Where-Object{$_.Status -eq 'OK'}; foreach($d in $disp){$p="HKLM:\SYSTEM\CurrentControlSet\Enum\$($d.InstanceId)\Device Parameters\Interrupt Management\MessageSignaledInterruptProperties"; try{Set-ItemProperty $p MSISupported 0 -Type DWord -Force -EA Stop}catch{}}}catch{$ok=$false}; try{$nets=Get-PnpDevice -Class Net -EA Stop|Where-Object{$_.Status -eq 'OK'}; foreach($n in $nets){$p="HKLM:\SYSTEM\CurrentControlSet\Enum\$($n.InstanceId)\Device Parameters\Interrupt Management\MessageSignaledInterruptProperties"; try{Set-ItemProperty $p MSISupported 0 -Type DWord -Force -EA Stop}catch{}}}catch{$ok=$false}; $ok"#;

/// Script that applies the `c_states` tweak.
pub const C_STATES_ON: &'static str = "powercfg -setacvalueindex SCHEME_CURRENT 54533251-82be-4824-96c1-47b60b740d00 5d76a2ca-e8c0-402f-a133-2158492d58ad 1; powercfg -setdcvalueindex SCHEME_CURRENT 54533251-82be-4824-96c1-47b60b740d00 5d76a2ca-e8c0-402f-a133-2158492d58ad 1; powercfg -s SCHEME_CURRENT";

/// Script that reverts the `c_states` tweak.
pub const C_STATES_OFF: &'static str = "powercfg -setacvalueindex SCHEME_CURRENT 54533251-82be-4824-96c1-47b60b740d00 5d76a2ca-e8c0-402f-a133-2158492d58ad 0; powercfg -setdcvalueindex SCHEME_CURRENT 54533251-82be-4824-96c1-47b60b740d00 5d76a2ca-e8c0-402f-a133-2158492d58ad 0; powercfg -s SCHEME_CURRENT";

/// Script that applies the `nagle` tweak.
pub const NAGLE_ON: &'static str = "Get-ChildItem 'HKLM:\\SYSTEM\\CurrentControlSet\\Services\\Tcpip\\Parameters\\Interfaces' -EA SilentlyContinue | ForEach-Object { Set-ItemProperty $_.PSPath TcpAckFrequency 1 -Type DWord -Force -EA SilentlyContinue; Set-ItemProperty $_.PSPath TCPNoDelay 1 -Type DWord -Force -EA SilentlyContinue }";

/// Script that reverts the `nagle` tweak.
pub const NAGLE_OFF: &'static str = "Get-ChildItem 'HKLM:\\SYSTEM\\CurrentControlSet\\Services\\Tcpip\\Parameters\\Interfaces' -EA SilentlyContinue | ForEach-Object { Remove-ItemProperty $_.PSPath TcpAckFrequency -Force -EA SilentlyContinue; Remove-ItemProperty $_.PSPath TCPNoDelay -Force -EA SilentlyContinue }";

/// Script that applies the `network_throttle` tweak.
pub const NETWORK_THROTTLE_ON: &'static str = "Set-ItemProperty 'HKLM:\\SOFTWARE\\Microsoft\\Windows NT\\CurrentVersion\\Multimedia\\SystemProfile' NetworkThrottlingIndex 0xFFFFFFFF -Type DWord -Force";

/// Script that reverts the `network_throttle` tweak.
pub const NETWORK_THROTTLE_OFF: &'static str = "Set-ItemProperty 'HKLM:\\SOFTWARE\\Microsoft\\Windows NT\\CurrentVersion\\Multimedia\\SystemProfile' NetworkThrottlingIndex 10 -Type DWord -Force";

/// Script that applies the `mmcss` tweak.
pub const MMCSS_ON: &'static str = "$k='HKLM:\\SOFTWARE\\Microsoft\\Windows NT\\CurrentVersion\\Multimedia\\SystemProfile\\Tasks\\Games'; if(!(Test-Path $k)){New-Item $k -Force|Out-Null}; Set-ItemProperty $k Priority 6 -Type DWord -Force; Set-ItemProperty $k 'Scheduling Category' 'High' -Force; Set-ItemProperty $k 'SFIO Priority' 'High' -Force";

/// Script that reverts the `mmcss` tweak.
pub const MMCSS_OFF: &'static str = "$k='HKLM:\\SOFTWARE\\Microsoft\\Windows NT\\CurrentVersion\\Multimedia\\SystemProfile\\Tasks\\Games'; if(!(Test-Path $k)){New-Item $k -Force|Out-Null}; Set-ItemProperty $k Priority 2 -Type DWord -Force; Set-ItemProperty $k 'Scheduling Category' 'Medium' -Force; Set-ItemProperty $k 'SFIO Priority' 'Normal' -Force";

/// Script that applies the `dynamic_tick` tweak.
pub const DYNAMIC_TICK_ON: &'static str = "bcdedit /set disabledynamictick yes";

/// Script that reverts the `dynamic_tick` tweak.
pub const DYNAMIC_TICK_OFF: &'static str = "bcdedit /set disabledynamictick no";

/// Script that applies the `dns_fast` tweak.
pub const DNS_FAST_ON: &'static str = "Get-NetAdapter | Where-Object {$_.Status -eq 'Up'} | ForEach-Object { try { Set-DnsClientServerAddress -InterfaceIndex $_.ifIndex -ServerAddresses '1.1.1.1','8.8.8.8' -EA SilentlyContinue } catch {} }";

/// Script that reverts the `dns_fast` tweak.
pub const DNS_FAST_OFF: &'static str = "Get-NetAdapter | Where-Object {$_.Status -eq 'Up'} | ForEach-Object { try { Set-DnsClientServerAddress -InterfaceIndex $_.ifIndex -ResetServerAddresses -EA SilentlyContinue } catch {} }";

/// Script that applies the `qos` tweak.
pub const QOS_ON: &'static str = "$k='HKLM:\\SOFTWARE\\Policies\\Microsoft\\Windows\\Psched'; if(!(Test-Path $k)){New-Item $k -Force|Out-Null}; Set-ItemProperty $k NonBestEffortLimit 0 -Type DWord -Force";

/// Script that reverts the `qos` tweak.
pub const QOS_OFF: &'static str = "try{Remove-ItemProperty 'HKLM:\\SOFTWARE\\Policies\\Microsoft\\Windows\\Psched' NonBestEffortLimit -Force -EA Stop}catch{}";

/// Script that applies the `lso` tweak.
pub const LSO_ON: &'static str = "Get-NetAdapterAdvancedProperty -EA SilentlyContinue | Where-Object { $_.RegistryKeyword -like '*LsoV2*' } | ForEach-Object { try { Set-NetAdapterAdvancedProperty -Name $_.Name -RegistryKeyword $_.RegistryKeyword -RegistryValue 0 -EA SilentlyContinue } catch {} }";

/// Script that reverts the `lso` tweak.
pub const LSO_OFF: &'static str = "Get-NetAdapterAdvancedProperty -EA SilentlyContinue | Where-Object { $_.RegistryKeyword -like '*LsoV2*' } | ForEach-Object { try { Set-NetAdapterAdvancedProperty -Name $_.Name -RegistryKeyword $_.RegistryKeyword -RegistryValue 1 -EA SilentlyContinue } catch {} }";

/// Script that applies the `mouse_accel` tweak.
pub const MOUSE_ACCEL_ON: &'static str = "$p='HKCU:\\Control Panel\\Mouse'; Set-ItemProperty $p MouseSpeed '0' -Force; Set-ItemProperty $p MouseThreshold1 '0' -Force; Set-ItemProperty $p MouseThreshold2 '0' -Force";

/// Script that reverts the `mouse_accel` tweak.
pub const MOUSE_ACCEL_OFF: &'static str = "$p='HKCU:\\Control Panel\\Mouse'; Set-ItemProperty $p MouseSpeed '1' -Force; Set-ItemProperty $p MouseThreshold1 '6' -Force; Set-ItemProperty $p MouseThreshold2 '10' -Force";

/// Script that applies the `mouse_raw` tweak.
pub const MOUSE_RAW_ON: &'static str = "$p='HKLM:\\SYSTEM\\CurrentControlSet\\Services\\mouclass\\Parameters'; if(!(Test-Path $p)){New-Item $p -Force|Out-Null}; Set-ItemProperty $p MouseDataQueueSize 20 -Type DWord -Force";

/// Script that reverts the `mouse_raw` tweak.
pub const MOUSE_RAW_OFF: &'static str = "try{Remove-ItemProperty 'HKLM:\\SYSTEM\\CurrentControlSet\\Services\\mouclass\\Parameters' MouseDataQueueSize -Force -EA Stop}catch{}";

/// Script that applies the `keyboard_speed` tweak.
pub const KEYBOARD_SPEED_ON: &'static str = "Set-ItemProperty 'HKCU:\\Control Panel\\Keyboard' KeyboardSpeed '31' -Force; Set-ItemProperty 'HKCU:\\Control Panel\\Keyboard' KeyboardDelay '0' -Force";

/// Script that reverts the `keyboard_speed` tweak.
pub const KEYBOARD_SPEED_OFF: &'static str = "Set-ItemProperty 'HKCU:\\Control Panel\\Keyboard' KeyboardSpeed '20' -Force; Set-ItemProperty 'HKCU:\\Control Panel\\Keyboard' KeyboardDelay '1' -Force";

/// Script that applies the `keyboard_buffer` tweak.
pub const KEYBOARD_BUFFER_ON: &'static str = "$p='HKLM:\\SYSTEM\\CurrentControlSet\\Services\\kbdclass\\Parameters'; if(!(Test-Path $p)){New-Item $p -Force|Out-Null}; Set-ItemProperty $p KeyboardDataQueueSize 20 -Type DWord -Force";

/// Script that reverts the `keyboard_buffer` tweak.
pub const KEYBOARD_BUFFER_OFF: &'static str = "try{Remove-ItemProperty 'HKLM:\\SYSTEM\\CurrentControlSet\\Services\\kbdclass\\Parameters' KeyboardDataQueueSize -Force -EA Stop}catch{}";

/// Script that applies the `nvidia_low_latency` tweak.
pub const NVIDIA_LOW_LATENCY_ON: &'static str = r#"$cls='HKLM:\SYSTEM\CurrentControlSet\Control\Class\{4d36e968-e325-11ce-bfc1-08002be10318}'; $k=Get-ChildItem $cls -EA SilentlyContinue|Where-Object{try{(Get-ItemPropertyValue $_.PSPath 'DriverDesc' -EA Stop)-like '*NVIDIA*'}catch{$false}}|Select-Object -First 1; if($k){Set-ItemProperty $k.PSPath 'D3DPrerenderedFrames' 0 -Type DWord -Force; Set-ItemProperty $k.PSPath 'PerfLevelSrc' 0x2222 -Type DWord -Force; $true}else{$false}"#;

/// Script that reverts the `nvidia_low_latency` tweak.
pub const NVIDIA_LOW_LATENCY_OFF: &'static str = r#"$cls='HKLM:\SYSTEM\CurrentControlSet\Control\Class\{4d36e968-e325-11ce-bfc1-08002be10318}'; $k=Get-ChildItem $cls -EA SilentlyContinue|Where-Object{try{(Get-ItemPropertyValue $_.PSPath 'DriverDesc' -EA Stop)-like '*NVIDIA*'}catch{$false}}|Select-Object -First 1; if($k){try{Remove-ItemProperty $k.PSPath 'D3DPrerenderedFrames' -Force -EA Stop}catch{}; try{Remove-ItemProperty $k.PSPath 'PerfLevelSrc' -Force -EA Stop}catch{}}; $true"#;

/// Script that applies the `nvidia_threaded_opt` tweak.
pub const NVIDIA_THREADED_OPT_ON: &'static str = r#"$cls='HKLM:\SYSTEM\CurrentControlSet\Control\Class\{4d36e968-e325-11ce-bfc1-08002be10318}'; $k=Get-ChildItem $cls -EA SilentlyContinue|Where-Object{try{(Get-ItemPropertyValue $_.PSPath 'DriverDesc' -EA Stop)-like '*NVIDIA*'}catch{$false}}|Select-Object -First 1; if($k){Set-ItemProperty $k.PSPath 'OGLThreadControl' 0 -Type DWord -Force; $true}else{$false}"#;

/// Script that reverts the `nvidia_threaded_opt` tweak.
pub const NVIDIA_THREADED_OPT_OFF: &'static str = r#"$cls='HKLM:\SYSTEM\CurrentControlSet\Control\Class\{4d36e968-e325-11ce-bfc1-08002be10318}'; $k=Get-ChildItem $cls -EA SilentlyContinue|Where-Object{try{(Get-ItemPropertyValue $_.PSPath 'DriverDesc' -EA Stop)-like '*NVIDIA*'}catch{$false}}|Select-Object -First 1; if($k){try{Remove-ItemProperty $k.PSPath 'OGLThreadControl' -Force -EA Stop}catch{}}; $true"#;

/// Script that applies the `nvidia_shader_cache` tweak.
pub const NVIDIA_SHADER_CACHE_ON: &'static str = r#"$p='HKLM:\SOFTWARE\Microsoft\DirectX\UserGpuPreferences'; if(!(Test-Path $p)){New-Item $p -Force|Out-Null}; Set-ItemProperty $p DirectXUserGlobalSettings 'ShaderCache=EnabledGlobally;' -Force; $true"#;

/// Script that reverts the `nvidia_shader_cache` tweak.
pub const NVIDIA_SHADER_CACHE_OFF: &'static str = r#"try{Remove-ItemProperty 'HKLM:\SOFTWARE\Microsoft\DirectX\UserGpuPreferences' DirectXUserGlobalSettings -Force -EA Stop}catch{}; $true"#;

/// Script that applies the `amd_ulps` tweak.
pub const AMD_ULPS_ON: &'static str = r#"$cls='HKLM:\SYSTEM\CurrentControlSet\Control\Class\{4d36e968-e325-11ce-bfc1-08002be10318}'; $ks=Get-ChildItem $cls -EA SilentlyContinue|Where-Object{try{$d=Get-ItemPropertyValue $_.PSPath 'DriverDesc' -EA Stop;$d -like '*AMD*'-or $d -like '*Radeon*'-or $d -like '*ATI*'}catch{$false}}; foreach($k in $ks){Set-ItemProperty $k.PSPath 'EnableUlps' 0 -Type DWord -Force}; ($ks|Measure-Object).Count -gt 0"#;

/// Script that reverts the `amd_ulps` tweak.
pub const AMD_ULPS_OFF: &'static str = r#"$cls='HKLM:\SYSTEM\CurrentControlSet\Control\Class\{4d36e968-e325-11ce-bfc1-08002be10318}'; Get-ChildItem $cls -EA SilentlyContinue|Where-Object{try{$d=Get-ItemPropertyValue $_.PSPath 'DriverDesc' -EA Stop;$d -like '*AMD*'-or $d -like '*Radeon*'-or $d -like '*ATI*'}catch{$false}}|ForEach-Object{Set-ItemProperty $_.PSPath 'EnableUlps' 1 -Type DWord -Force}; $true"#;

/// Script that applies the `amd_anti_lag` tweak.
pub const AMD_ANTI_LAG_ON: &'static str = r#"$cls='HKLM:\SYSTEM\CurrentControlSet\Control\Class\{4d36e968-e325-11ce-bfc1-08002be10318}'; $ks=Get-ChildItem $cls -EA SilentlyContinue|Where-Object{try{$d=Get-ItemPropertyValue $_.PSPath 'DriverDesc' -EA Stop;$d -like '*AMD*'-or $d -like '*Radeon*'-or $d -like '*ATI*'}catch{$false}}; foreach($k in $ks){Set-ItemProperty $k.PSPath 'PP_SclkDeepSleepDisable' 1 -Type DWord -Force; Set-ItemProperty $k.PSPath 'AmdPowerXpressRequestHighPerformance' 1 -Type DWord -Force}; ($ks|Measure-Object).Count -gt 0"#;

/// Script that reverts the `amd_anti_lag` tweak.
pub const AMD_ANTI_LAG_OFF: &'static str = r#"$cls='HKLM:\SYSTEM\CurrentControlSet\Control\Class\{4d36e968-e325-11ce-bfc1-08002be10318}'; Get-ChildItem $cls -EA SilentlyContinue|Where-Object{try{$d=Get-ItemPropertyValue $_.PSPath 'DriverDesc' -EA Stop;$d -like '*AMD*'-or $d -like '*Radeon*'-or $d -like '*ATI*'}catch{$false}}|ForEach-Object{try{Remove-ItemProperty $_.PSPath 'PP_SclkDeepSleepDisable' -Force -EA Stop}catch{}; try{Remove-ItemProperty $_.PSPath 'AmdPowerXpressRequestHighPerformance' -Force -EA Stop}catch{}}; $true"#;

/// Script that applies the `xbox_services` tweak.
pub const XBOX_SERVICES_ON: &'static str = "@('XblGameSave','XboxNetApiSvc','XboxGipSvc','XblAuthManager') | ForEach-Object { try{Stop-Service $_ -Force -EA SilentlyContinue}catch{}; try{Set-Service $_ -StartupType Disabled -EA SilentlyContinue}catch{} }";

/// Script that reverts the `xbox_services` tweak.
pub const XBOX_SERVICES_OFF: &'static str = "@('XblGameSave','XboxNetApiSvc','XboxGipSvc','XblAuthManager') | ForEach-Object { try{Set-Service $_ -StartupType Manual -EA SilentlyContinue}catch{} }";

/// Script that applies the `diagtrack` tweak.
pub const DIAGTRACK_ON: &'static str = "try{Stop-Service DiagTrack -Force -EA SilentlyContinue}catch{}; try{Set-Service DiagTrack -StartupType Disabled -EA SilentlyContinue}catch{}; $p='HKLM:\\SOFTWARE\\Policies\\Microsoft\\Windows\\DataCollection'; if(!(Test-Path $p)){New-Item $p -Force|Out-Null}; Set-ItemProperty $p AllowTelemetry 0 -Type DWord -Force";

/// Script that reverts the `diagtrack` tweak.
pub const DIAGTRACK_OFF: &'static str = "try{Set-Service DiagTrack -StartupType Automatic -EA SilentlyContinue; Start-Service DiagTrack -EA SilentlyContinue}catch{}";

/// Script that applies the `defender_realtime` tweak.
pub const DEFENDER_REALTIME_ON: &'static str = "Set-MpPreference -DisableRealtimeMonitoring $true -EA SilentlyContinue; $true";

/// Script that reverts the `defender_realtime` tweak.
pub const DEFENDER_REALTIME_OFF: &'static str = "Set-MpPreference -DisableRealtimeMonitoring $false -EA SilentlyContinue; $true";

/// Script that applies the `ultimate_performance` tweak.
pub const ULTIMATE_PERFORMANCE_ON: &'static str = "$guid='e9a42b02-d5df-448d-aa00-03f14749eb61'; $list=(powercfg /list 2>&1|Out-String); if($list -match $guid){ powercfg /setactive $guid }else{ $out=(powercfg /duplicatescheme $guid 2>&1|Out-String); if($out -match '([0-9a-f]{8}-[0-9a-f]{4}-[0-9a-f]{4}-[0-9a-f]{4}-[0-9a-f]{12})'){ powercfg /setactive $matches[1] } }; (powercfg /getactivescheme) -match $guid";

/// Script that reverts the `ultimate_performance` tweak.
pub const ULTIMATE_PERFORMANCE_OFF: &'static str = "powercfg /setactive 8c5e7fda-e8bf-4a96-9a85-a6e23a8c635c";

/// One tweak: its identifier and the scripts that apply and revert it.
pub struct TweakScripts {
    pub id: &'static str,
    pub apply: &'static str,
    pub revert: &'static str,
}

/// Every tweak, in the order in which their states are reported.
pub open spec fn tweak_table() -> Seq<TweakScripts> {
    seq![
        TweakScripts { id: "power", apply: POWER_ON, revert: POWER_OFF },
        TweakScripts { id: "visual", apply: VISUAL_ON, revert: VISUAL_OFF },
        TweakScripts { id: "gamebar", apply: GAMEBAR_ON, revert: GAMEBAR_OFF },
        TweakScripts { id: "network", apply: NETWORK_ON, revert: NETWORK_OFF },
        TweakScripts { id: "sysmain", apply: SYSMAIN_ON, revert: SYSMAIN_OFF },
        TweakScripts { id: "priority", apply: PRIORITY_ON, revert: PRIORITY_OFF },
        TweakScripts { id: "wsearch", apply: WSEARCH_ON, revert: WSEARCH_OFF },
        TweakScripts { id: "gamemode", apply: GAMEMODE_ON, revert: GAMEMODE_OFF },
        TweakScripts { id: "hags", apply: HAGS_ON, revert: HAGS_OFF },
        TweakScripts { id: "core_parking", apply: CORE_PARKING_ON, revert: CORE_PARKING_OFF },
        TweakScripts { id: "power_throttling", apply: POWER_THROTTLING_ON, revert: POWER_THROTTLING_OFF },
        TweakScripts { id: "timer_res", apply: TIMER_RES_ON, revert: TIMER_RES_OFF },
        TweakScripts { id: "msi_mode", apply: MSI_MODE_ON, revert: MSI_MODE_OFF },
        TweakScripts { id: "c_states", apply: C_STATES_ON, revert: C_STATES_OFF },
        TweakScripts { id: "nagle", apply: NAGLE_ON, revert: NAGLE_OFF },
        TweakScripts { id: "network_throttle", apply: NETWORK_THROTTLE_ON, revert: NETWORK_THROTTLE_OFF },
        TweakScripts { id: "mmcss", apply: MMCSS_ON, revert: MMCSS_OFF },
        TweakScripts { id: "dynamic_tick", apply: DYNAMIC_TICK_ON, revert: DYNAMIC_TICK_OFF },
        TweakScripts { id: "dns_fast", apply: DNS_FAST_ON, revert: DNS_FAST_OFF },
        TweakScripts { id: "qos", apply: QOS_ON, revert: QOS_OFF },
        TweakScripts { id: "lso", apply: LSO_ON, revert: LSO_OFF },
        TweakScripts { id: "mouse_accel", apply: MOUSE_ACCEL_ON, revert: MOUSE_ACCEL_OFF },
        TweakScripts { id: "mouse_raw", apply: MOUSE_RAW_ON, revert: MOUSE_RAW_OFF },
        TweakScripts { id: "keyboard_speed", apply: KEYBOARD_SPEED_ON, revert: KEYBOARD_SPEED_OFF },
        TweakScripts { id: "keyboard_buffer", apply: KEYBOARD_BUFFER_ON, revert: KEYBOARD_BUFFER_OFF },
        TweakScripts { id: "nvidia_low_latency", apply: NVIDIA_LOW_LATENCY_ON, revert: NVIDIA_LOW_LATENCY_OFF },
        TweakScripts { id: "nvidia_threaded_opt", apply: NVIDIA_THREADED_OPT_ON, revert: NVIDIA_THREADED_OPT_OFF },
        TweakScripts { id: "nvidia_shader_cache", apply: NVIDIA_SHADER_CACHE_ON, revert: NVIDIA_SHADER_CACHE_OFF },
        TweakScripts { id: "amd_ulps", apply: AMD_ULPS_ON, revert: AMD_ULPS_OFF },
        TweakScripts { id: "amd_anti_lag", apply: AMD_ANTI_LAG_ON, revert: AMD_ANTI_LAG_OFF },
        TweakScripts { id: "xbox_services", apply: XBOX_SERVICES_ON, revert: XBOX_SERVICES_OFF },
        TweakScripts { id: "diagtrack", apply: DIAGTRACK_ON, revert: DIAGTRACK_OFF },
        TweakScripts { id: "defender_realtime", apply: DEFENDER_REALTIME_ON, revert: DEFENDER_REALTIME_OFF },
        TweakScripts { id: "ultimate_performance", apply: ULTIMATE_PERFORMANCE_ON, revert: ULTIMATE_PERFORMANCE_OFF },
    ]
}

/// Every tweak, in the order in which their states are reported (see
/// `tweak_table`).
pub fn tweaks() -> (v: Vec<TweakScripts>)
    ensures
        v@ == tweak_table(),
{
    vec![
        TweakScripts { id: "power", apply: POWER_ON, revert: POWER_OFF },
        TweakScripts { id: "visual", apply: VISUAL_ON, revert: VISUAL_OFF },
        TweakScripts { id: "gamebar", apply: GAMEBAR_ON, revert: GAMEBAR_OFF },
        TweakScripts { id: "network", apply: NETWORK_ON, revert: NETWORK_OFF },
        TweakScripts { id: "sysmain", apply: SYSMAIN_ON, revert: SYSMAIN_OFF },
        TweakScripts { id: "priority", apply: PRIORITY_ON, revert: PRIORITY_OFF },
        TweakScripts { id: "wsearch", apply: WSEARCH_ON, revert: WSEARCH_OFF },
        TweakScripts { id: "gamemode", apply: GAMEMODE_ON, revert: GAMEMODE_OFF },
        TweakScripts { id: "hags", apply: HAGS_ON, revert: HAGS_OFF },
        TweakScripts { id: "core_parking", apply: CORE_PARKING_ON, revert: CORE_PARKING_OFF },
        TweakScripts { id: "power_throttling", apply: POWER_THROTTLING_ON, revert: POWER_THROTTLING_OFF },
        TweakScripts { id: "timer_res", apply: TIMER_RES_ON, revert: TIMER_RES_OFF },
        TweakScripts { id: "msi_mode", apply: MSI_MODE_ON, revert: MSI_MODE_OFF },
        TweakScripts { id: "c_states", apply: C_STATES_ON, revert: C_STATES_OFF },
        TweakScripts { id: "nagle", apply: NAGLE_ON, revert: NAGLE_OFF },
        TweakScripts { id: "network_throttle", apply: NETWORK_THROTTLE_ON, revert: NETWORK_THROTTLE_OFF },
        TweakScripts { id: "mmcss", apply: MMCSS_ON, revert: MMCSS_OFF },
        TweakScripts { id: "dynamic_tick", apply: DYNAMIC_TICK_ON, revert: DYNAMIC_TICK_OFF },
        TweakScripts { id: "dns_fast", apply: DNS_FAST_ON, revert: DNS_FAST_OFF },
        TweakScripts { id: "qos", apply: QOS_ON, revert: QOS_OFF },
        TweakScripts { id: "lso", apply: LSO_ON, revert: LSO_OFF },
        TweakScripts { id: "mouse_accel", apply: MOUSE_ACCEL_ON, revert: MOUSE_ACCEL_OFF },
        TweakScripts { id: "mouse_raw", apply: MOUSE_RAW_ON, revert: MOUSE_RAW_OFF },
        TweakScripts { id: "keyboard_speed", apply: KEYBOARD_SPEED_ON, revert: KEYBOARD_SPEED_OFF },
        TweakScripts { id: "keyboard_buffer", apply: KEYBOARD_BUFFER_ON, revert: KEYBOARD_BUFFER_OFF },
        TweakScripts { id: "nvidia_low_latency", apply: NVIDIA_LOW_LATENCY_ON, revert: NVIDIA_LOW_LATENCY_OFF },
        TweakScripts { id: "nvidia_threaded_opt", apply: NVIDIA_THREADED_OPT_ON, revert: NVIDIA_THREADED_OPT_OFF },
        TweakScripts { id: "nvidia_shader_cache", apply: NVIDIA_SHADER_CACHE_ON, revert: NVIDIA_SHADER_CACHE_OFF },
        TweakScripts { id: "amd_ulps", apply: AMD_ULPS_ON, revert: AMD_ULPS_OFF },
        TweakScripts { id: "amd_anti_lag", apply: AMD_ANTI_LAG_ON, revert: AMD_ANTI_LAG_OFF },
        TweakScripts { id: "xbox_services", apply: XBOX_SERVICES_ON, revert: XBOX_SERVICES_OFF },
        TweakScripts { id: "diagtrack", apply: DIAGTRACK_ON, revert: DIAGTRACK_OFF },
        TweakScripts { id: "defender_realtime", apply: DEFENDER_REALTIME_ON, revert: DEFENDER_REALTIME_OFF },
        TweakScripts { id: "ultimate_performance", apply: ULTIMATE_PERFORMANCE_ON, revert: ULTIMATE_PERFORMANCE_OFF },
    ]
}


/// The first tweak in `t` whose identifier is `id`.
pub open spec fn lookup(t: Seq<TweakScripts>, id: Seq<char>) -> Option<TweakScripts>
    decreases t.len(),
{
    if t.len() == 0 {
        None
    } else if t[0].id@ == id {
        Some(t[0])
    } else {
        lookup(t.drop_first(), id)
    }
}

/// The tweak named `id`, if there is one.
pub open spec fn tweak_named(id: Seq<char>) -> Option<TweakScripts> {
    lookup(tweak_table(), id)
}

/// Finds the tweak named `id` (see `tweak_named`).
pub fn find_tweak(id: &str) -> (r: Option<TweakScripts>)
    ensures
        r == tweak_named(id@),
{
    let table = tweaks();
    let n = table.len();
    assert(table@.skip(0) == table@);
    for i in 0..n
        invariant
            n == table@.len(),
            table@ == tweak_table(),
            tweak_named(id@) == lookup(table@.skip(i as int), id@),
    {
        assert(table@.skip(i as int)[0] == table@[i as int]);
        assert(table@.skip(i as int).drop_first() == table@.skip(i + 1));
        let t = &table[i];
        if same_text(t.id, id) {
            return Some(TweakScripts { id: t.id, apply: t.apply, revert: t.revert });
        }
    }
    None
}

/// The script that applies the tweak named `id`; none for an unknown tweak.
pub fn apply_tweak_script(id: &str) -> (r: Option<&'static str>)
    ensures
        r == (match tweak_named(id@) {
            Some(t) => Some(t.apply),
            None => None,
        }),
{
    match find_tweak(id) {
        Some(t) => Some(t.apply),
        None => None,
    }
}

/// The script that reverts the tweak named `id`; none for an unknown tweak.
pub fn revert_tweak_script(id: &str) -> (r: Option<&'static str>)
    ensures
        r == (match tweak_named(id@) {
            Some(t) => Some(t.revert),
            None => None,
        }),
{
    match find_tweak(id) {
        Some(t) => Some(t.revert),
        None => None,
    }
}

/// No two tweaks share an identifier.
pub proof fn law_tweak_ids_distinct()
    ensures
        forall|i: int, j: int|
            0 <= i < j < tweak_table().len() ==> #[trigger] tweak_table()[i].id@ != #[trigger] tweak_table()[j].id@,
{
        reveal_strlit("power");
        reveal_strlit("visual");
        reveal_strlit("gamebar");
        reveal_strlit("network");
        reveal_strlit("sysmain");
        reveal_strlit("priority");
        reveal_strlit("wsearch");
        reveal_strlit("gamemode");
        reveal_strlit("hags");
        reveal_strlit("core_parking");
        reveal_strlit("power_throttling");
        reveal_strlit("timer_res");
        reveal_strlit("msi_mode");
        reveal_strlit("c_states");
        reveal_strlit("nagle");
        reveal_strlit("network_throttle");
        reveal_strlit("mmcss");
        reveal_strlit("dynamic_tick");
        reveal_strlit("dns_fast");
        reveal_strlit("qos");
        reveal_strlit("lso");
        reveal_strlit("mouse_accel");
        reveal_strlit("mouse_raw");
        reveal_strlit("keyboard_speed");
        reveal_strlit("keyboard_buffer");
        reveal_strlit("nvidia_low_latency");
        reveal_strlit("nvidia_threaded_opt");
        reveal_strlit("nvidia_shader_cache");
        reveal_strlit("amd_ulps");
        reveal_strlit("amd_anti_lag");
        reveal_strlit("xbox_services");
        reveal_strlit("diagtrack");
        reveal_strlit("defender_realtime");
        reveal_strlit("ultimate_performance");
    let t = tweak_table();
    assert forall|i: int, j: int| 0 <= i < j < t.len() implies #[trigger] t[i].id@ != #[trigger] t[j].id@ by {
        let a = t[i].id@;
        let b = t[j].id@;
        assert(a.len() != b.len() || a[0] != b[0] || a[a.len() - 1] != b[b.len() - 1]);
    }
}


proof fn lemma_lookup_finds(t: Seq<TweakScripts>, i: int)
    requires
        0 <= i < t.len(),
        forall|k: int| 0 <= k < i ==> t[k].id@ != t[i].id@,
    ensures
        lookup(t, t[i].id@) == Some(t[i]),
    decreases i,
{
    if i > 0 {
        lemma_lookup_finds(t.drop_first(), i - 1);
    }
}

proof fn lemma_lookup_some(t: Seq<TweakScripts>, id: Seq<char>)
    ensures
        lookup(t, id) is Some <==> exists|k: int| 0 <= k < t.len() && t[k].id@ == id,
        lookup(t, id) matches Some(e) ==> e.id@ == id,
    decreases t.len(),
{
    if t.len() > 0 {
        lemma_lookup_some(t.drop_first(), id);
        if lookup(t.drop_first(), id) is Some {
            let k = choose|k: int| 0 <= k < t.drop_first().len() && t.drop_first()[k].id@ == id;
            assert(t[k + 1].id@ == id);
        }
        if exists|k: int| 0 <= k < t.len() && t[k].id@ == id {
            let k = choose|k: int| 0 <= k < t.len() && t[k].id@ == id;
            if k > 0 {
                assert(t.drop_first()[k - 1].id@ == id);
            }
        }
    }
}

/// Each tweak is found by its own identifier, and any other text names no
/// tweak: so a tweak that can be applied can be reverted, and the reverse.
pub proof fn law_tweak_lookup(id: Seq<char>)
    ensures
        forall|i: int|
            0 <= i < tweak_table().len() ==> tweak_named(#[trigger] tweak_table()[i].id@) == Some(
                tweak_table()[i],
            ),
        tweak_named(id) is Some <==> exists|i: int|
            0 <= i < tweak_table().len() && #[trigger] tweak_table()[i].id@ == id,
        tweak_named(id) matches Some(t) ==> t.id@ == id,
{
    law_tweak_ids_distinct();
    lemma_lookup_some(tweak_table(), id);
    assert forall|i: int| 0 <= i < tweak_table().len() implies tweak_named(
        #[trigger] tweak_table()[i].id@,
    ) == Some(tweak_table()[i]) by {
        lemma_lookup_finds(tweak_table(), i);
    }
}

/// The tweak named by each identifier applies with its own `_ON` script and
/// reverts with its own `_OFF` script: `apply_tweak_script("visual")` is
/// `Some(VISUAL_ON)` and `revert_tweak_script("visual")` is `Some(VISUAL_OFF)`,
/// and so on for every tweak.
pub proof fn law_tweak_scripts()
    ensures
        tweak_named("power"@) == Some(TweakScripts { id: "power", apply: POWER_ON, revert: POWER_OFF }),
        tweak_named("visual"@) == Some(TweakScripts { id: "visual", apply: VISUAL_ON, revert: VISUAL_OFF }),
        tweak_named("gamebar"@) == Some(TweakScripts { id: "gamebar", apply: GAMEBAR_ON, revert: GAMEBAR_OFF }),
        tweak_named("network"@) == Some(TweakScripts { id: "network", apply: NETWORK_ON, revert: NETWORK_OFF }),
        tweak_named("sysmain"@) == Some(TweakScripts { id: "sysmain", apply: SYSMAIN_ON, revert: SYSMAIN_OFF }),
        tweak_named("priority"@) == Some(TweakScripts { id: "priority", apply: PRIORITY_ON, revert: PRIORITY_OFF }),
        tweak_named("wsearch"@) == Some(TweakScripts { id: "wsearch", apply: WSEARCH_ON, revert: WSEARCH_OFF }),
        tweak_named("gamemode"@) == Some(TweakScripts { id: "gamemode", apply: GAMEMODE_ON, revert: GAMEMODE_OFF }),
        tweak_named("hags"@) == Some(TweakScripts { id: "hags", apply: HAGS_ON, revert: HAGS_OFF }),
        tweak_named("core_parking"@) == Some(TweakScripts { id: "core_parking", apply: CORE_PARKING_ON, revert: CORE_PARKING_OFF }),
        tweak_named("power_throttling"@) == Some(TweakScripts { id: "power_throttling", apply: POWER_THROTTLING_ON, revert: POWER_THROTTLING_OFF }),
        tweak_named("timer_res"@) == Some(TweakScripts { id: "timer_res", apply: TIMER_RES_ON, revert: TIMER_RES_OFF }),
        tweak_named("msi_mode"@) == Some(TweakScripts { id: "msi_mode", apply: MSI_MODE_ON, revert: MSI_MODE_OFF }),
        tweak_named("c_states"@) == Some(TweakScripts { id: "c_states", apply: C_STATES_ON, revert: C_STATES_OFF }),
        tweak_named("nagle"@) == Some(TweakScripts { id: "nagle", apply: NAGLE_ON, revert: NAGLE_OFF }),
        tweak_named("network_throttle"@) == Some(TweakScripts { id: "network_throttle", apply: NETWORK_THROTTLE_ON, revert: NETWORK_THROTTLE_OFF }),
        tweak_named("mmcss"@) == Some(TweakScripts { id: "mmcss", apply: MMCSS_ON, revert: MMCSS_OFF }),
        tweak_named("dynamic_tick"@) == Some(TweakScripts { id: "dynamic_tick", apply: DYNAMIC_TICK_ON, revert: DYNAMIC_TICK_OFF }),
        tweak_named("dns_fast"@) == Some(TweakScripts { id: "dns_fast", apply: DNS_FAST_ON, revert: DNS_FAST_OFF }),
        tweak_named("qos"@) == Some(TweakScripts { id: "qos", apply: QOS_ON, revert: QOS_OFF }),
        tweak_named("lso"@) == Some(TweakScripts { id: "lso", apply: LSO_ON, revert: LSO_OFF }),
        tweak_named("mouse_accel"@) == Some(TweakScripts { id: "mouse_accel", apply: MOUSE_ACCEL_ON, revert: MOUSE_ACCEL_OFF }),
        tweak_named("mouse_raw"@) == Some(TweakScripts { id: "mouse_raw", apply: MOUSE_RAW_ON, revert: MOUSE_RAW_OFF }),
        tweak_named("keyboard_speed"@) == Some(TweakScripts { id: "keyboard_speed", apply: KEYBOARD_SPEED_ON, revert: KEYBOARD_SPEED_OFF }),
        tweak_named("keyboard_buffer"@) == Some(TweakScripts { id: "keyboard_buffer", apply: KEYBOARD_BUFFER_ON, revert: KEYBOARD_BUFFER_OFF }),
        tweak_named("nvidia_low_latency"@) == Some(TweakScripts { id: "nvidia_low_latency", apply: NVIDIA_LOW_LATENCY_ON, revert: NVIDIA_LOW_LATENCY_OFF }),
        tweak_named("nvidia_threaded_opt"@) == Some(TweakScripts { id: "nvidia_threaded_opt", apply: NVIDIA_THREADED_OPT_ON, revert: NVIDIA_THREADED_OPT_OFF }),
        tweak_named("nvidia_shader_cache"@) == Some(TweakScripts { id: "nvidia_shader_cache", apply: NVIDIA_SHADER_CACHE_ON, revert: NVIDIA_SHADER_CACHE_OFF }),
        tweak_named("amd_ulps"@) == Some(TweakScripts { id: "amd_ulps", apply: AMD_ULPS_ON, revert: AMD_ULPS_OFF }),
        tweak_named("amd_anti_lag"@) == Some(TweakScripts { id: "amd_anti_lag", apply: AMD_ANTI_LAG_ON, revert: AMD_ANTI_LAG_OFF }),
        tweak_named("xbox_services"@) == Some(TweakScripts { id: "xbox_services", apply: XBOX_SERVICES_ON, revert: XBOX_SERVICES_OFF }),
        tweak_named("diagtrack"@) == Some(TweakScripts { id: "diagtrack", apply: DIAGTRACK_ON, revert: DIAGTRACK_OFF }),
        tweak_named("defender_realtime"@) == Some(TweakScripts { id: "defender_realtime", apply: DEFENDER_REALTIME_ON, revert: DEFENDER_REALTIME_OFF }),
        tweak_named("ultimate_performance"@) == Some(TweakScripts { id: "ultimate_performance", apply: ULTIMATE_PERFORMANCE_ON, revert: ULTIMATE_PERFORMANCE_OFF }),
{
    law_tweak_lookup(Seq::empty());
    assert(tweak_table()[0] == TweakScripts { id: "power", apply: POWER_ON, revert: POWER_OFF });
    assert(tweak_named(tweak_table()[0].id@) == Some(tweak_table()[0]));
    assert(tweak_table()[1] == TweakScripts { id: "visual", apply: VISUAL_ON, revert: VISUAL_OFF });
    assert(tweak_named(tweak_table()[1].id@) == Some(tweak_table()[1]));
    assert(tweak_table()[2] == TweakScripts { id: "gamebar", apply: GAMEBAR_ON, revert: GAMEBAR_OFF });
    assert(tweak_named(tweak_table()[2].id@) == Some(tweak_table()[2]));
    assert(tweak_table()[3] == TweakScripts { id: "network", apply: NETWORK_ON, revert: NETWORK_OFF });
    assert(tweak_named(tweak_table()[3].id@) == Some(tweak_table()[3]));
    assert(tweak_table()[4] == TweakScripts { id: "sysmain", apply: SYSMAIN_ON, revert: SYSMAIN_OFF });
    assert(tweak_named(tweak_table()[4].id@) == Some(tweak_table()[4]));
    assert(tweak_table()[5] == TweakScripts { id: "priority", apply: PRIORITY_ON, revert: PRIORITY_OFF });
    assert(tweak_named(tweak_table()[5].id@) == Some(tweak_table()[5]));
    assert(tweak_table()[6] == TweakScripts { id: "wsearch", apply: WSEARCH_ON, revert: WSEARCH_OFF });
    assert(tweak_named(tweak_table()[6].id@) == Some(tweak_table()[6]));
    assert(tweak_table()[7] == TweakScripts { id: "gamemode", apply: GAMEMODE_ON, revert: GAMEMODE_OFF });
    assert(tweak_named(tweak_table()[7].id@) == Some(tweak_table()[7]));
    assert(tweak_table()[8] == TweakScripts { id: "hags", apply: HAGS_ON, revert: HAGS_OFF });
    assert(tweak_named(tweak_table()[8].id@) == Some(tweak_table()[8]));
    assert(tweak_table()[9] == TweakScripts { id: "core_parking", apply: CORE_PARKING_ON, revert: CORE_PARKING_OFF });
    assert(tweak_named(tweak_table()[9].id@) == Some(tweak_table()[9]));
    assert(tweak_table()[10] == TweakScripts { id: "power_throttling", apply: POWER_THROTTLING_ON, revert: POWER_THROTTLING_OFF });
    assert(tweak_named(tweak_table()[10].id@) == Some(tweak_table()[10]));
    assert(tweak_table()[11] == TweakScripts { id: "timer_res", apply: TIMER_RES_ON, revert: TIMER_RES_OFF });
    assert(tweak_named(tweak_table()[11].id@) == Some(tweak_table()[11]));
    assert(tweak_table()[12] == TweakScripts { id: "msi_mode", apply: MSI_MODE_ON, revert: MSI_MODE_OFF });
    assert(tweak_named(tweak_table()[12].id@) == Some(tweak_table()[12]));
    assert(tweak_table()[13] == TweakScripts { id: "c_states", apply: C_STATES_ON, revert: C_STATES_OFF });
    assert(tweak_named(tweak_table()[13].id@) == Some(tweak_table()[13]));
    assert(tweak_table()[14] == TweakScripts { id: "nagle", apply: NAGLE_ON, revert: NAGLE_OFF });
    assert(tweak_named(tweak_table()[14].id@) == Some(tweak_table()[14]));
    assert(tweak_table()[15] == TweakScripts { id: "network_throttle", apply: NETWORK_THROTTLE_ON, revert: NETWORK_THROTTLE_OFF });
    assert(tweak_named(tweak_table()[15].id@) == Some(tweak_table()[15]));
    assert(tweak_table()[16] == TweakScripts { id: "mmcss", apply: MMCSS_ON, revert: MMCSS_OFF });
    assert(tweak_named(tweak_table()[16].id@) == Some(tweak_table()[16]));
    assert(tweak_table()[17] == TweakScripts { id: "dynamic_tick", apply: DYNAMIC_TICK_ON, revert: DYNAMIC_TICK_OFF });
    assert(tweak_named(tweak_table()[17].id@) == Some(tweak_table()[17]));
    assert(tweak_table()[18] == TweakScripts { id: "dns_fast", apply: DNS_FAST_ON, revert: DNS_FAST_OFF });
    assert(tweak_named(tweak_table()[18].id@) == Some(tweak_table()[18]));
    assert(tweak_table()[19] == TweakScripts { id: "qos", apply: QOS_ON, revert: QOS_OFF });
    assert(tweak_named(tweak_table()[19].id@) == Some(tweak_table()[19]));
    assert(tweak_table()[20] == TweakScripts { id: "lso", apply: LSO_ON, revert: LSO_OFF });
    assert(tweak_named(tweak_table()[20].id@) == Some(tweak_table()[20]));
    assert(tweak_table()[21] == TweakScripts { id: "mouse_accel", apply: MOUSE_ACCEL_ON, revert: MOUSE_ACCEL_OFF });
    assert(tweak_named(tweak_table()[21].id@) == Some(tweak_table()[21]));
    assert(tweak_table()[22] == TweakScripts { id: "mouse_raw", apply: MOUSE_RAW_ON, revert: MOUSE_RAW_OFF });
    assert(tweak_named(tweak_table()[22].id@) == Some(tweak_table()[22]));
    assert(tweak_table()[23] == TweakScripts { id: "keyboard_speed", apply: KEYBOARD_SPEED_ON, revert: KEYBOARD_SPEED_OFF });
    assert(tweak_named(tweak_table()[23].id@) == Some(tweak_table()[23]));
    assert(tweak_table()[24] == TweakScripts { id: "keyboard_buffer", apply: KEYBOARD_BUFFER_ON, revert: KEYBOARD_BUFFER_OFF });
    assert(tweak_named(tweak_table()[24].id@) == Some(tweak_table()[24]));
    assert(tweak_table()[25] == TweakScripts { id: "nvidia_low_latency", apply: NVIDIA_LOW_LATENCY_ON, revert: NVIDIA_LOW_LATENCY_OFF });
    assert(tweak_named(tweak_table()[25].id@) == Some(tweak_table()[25]));
    assert(tweak_table()[26] == TweakScripts { id: "nvidia_threaded_opt", apply: NVIDIA_THREADED_OPT_ON, revert: NVIDIA_THREADED_OPT_OFF });
    assert(tweak_named(tweak_table()[26].id@) == Some(tweak_table()[26]));
    assert(tweak_table()[27] == TweakScripts { id: "nvidia_shader_cache", apply: NVIDIA_SHADER_CACHE_ON, revert: NVIDIA_SHADER_CACHE_OFF });
    assert(tweak_named(tweak_table()[27].id@) == Some(tweak_table()[27]));
    assert(tweak_table()[28] == TweakScripts { id: "amd_ulps", apply: AMD_ULPS_ON, revert: AMD_ULPS_OFF });
    assert(tweak_named(tweak_table()[28].id@) == Some(tweak_table()[28]));
    assert(tweak_table()[29] == TweakScripts { id: "amd_anti_lag", apply: AMD_ANTI_LAG_ON, revert: AMD_ANTI_LAG_OFF });
    assert(tweak_named(tweak_table()[29].id@) == Some(tweak_table()[29]));
    assert(tweak_table()[30] == TweakScripts { id: "xbox_services", apply: XBOX_SERVICES_ON, revert: XBOX_SERVICES_OFF });
    assert(tweak_named(tweak_table()[30].id@) == Some(tweak_table()[30]));
    assert(tweak_table()[31] == TweakScripts { id: "diagtrack", apply: DIAGTRACK_ON, revert: DIAGTRACK_OFF });
    assert(tweak_named(tweak_table()[31].id@) == Some(tweak_table()[31]));
    assert(tweak_table()[32] == TweakScripts { id: "defender_realtime", apply: DEFENDER_REALTIME_ON, revert: DEFENDER_REALTIME_OFF });
    assert(tweak_named(tweak_table()[32].id@) == Some(tweak_table()[32]));
    assert(tweak_table()[33] == TweakScripts { id: "ultimate_performance", apply: ULTIMATE_PERFORMANCE_ON, revert: ULTIMATE_PERFORMANCE_OFF });
    assert(tweak_named(tweak_table()[33].id@) == Some(tweak_table()[33]));
}

/// What running a tweak reports.
pub struct TweakResult {
    pub success: bool,
    pub message: String,
}

/// The message after applying the tweak `id`.
pub open spec fn applied_message(id: Seq<char>, ok: bool) -> Seq<char> {
    if ok {
        "Tweak '"@ + id + "' appliqué avec succès"@
    } else {
        "Échec du tweak '"@ + id + "' — droits admin requis ?"@
    }
}

/// The message after reverting the tweak `id`.
pub open spec fn reverted_message(id: Seq<char>, ok: bool) -> Seq<char> {
    if ok {
        "Tweak '"@ + id + "' désactivé"@
    } else {
        "Échec désactivation '"@ + id + "' — droits admin requis ?"@
    }
}

/// What applying the tweak `id` reports, given whether its script succeeded.
pub fn applied_result(id: &str, ok: bool) -> (r: TweakResult)
    ensures
        r.success == ok,
        r.message@ == applied_message(id@, ok),
{
    let mut message = if ok {
        String::from_str("Tweak '")
    } else {
        String::from_str("Échec du tweak '")
    };
    message.append(id);
    if ok {
        message.append("' appliqué avec succès");
    } else {
        message.append("' — droits admin requis ?");
    }
    TweakResult { success: ok, message }
}

/// What reverting the tweak `id` reports, given whether its script succeeded.
pub fn reverted_result(id: &str, ok: bool) -> (r: TweakResult)
    ensures
        r.success == ok,
        r.message@ == reverted_message(id@, ok),
{
    let mut message = if ok {
        String::from_str("Tweak '")
    } else {
        String::from_str("Échec désactivation '")
    };
    message.append(id);
    if ok {
        message.append("' désactivé");
    } else {
        message.append("' — droits admin requis ?");
    }
    TweakResult { success: ok, message }
}

/// Whether one tweak is in effect.
pub struct TweakStatus {
    pub id: String,
    pub active: bool,
}

/// The identifiers and states of a list of tweak states.
pub open spec fn status_views(s: Seq<TweakStatus>) -> Seq<(Seq<char>, bool)> {
    Seq::new(s.len(), |i: int| (s[i].id@, s[i].active))
}

/// Every tweak, none in effect: what is reported when the states cannot be read.
pub open spec fn default_statuses() -> Seq<(Seq<char>, bool)> {
    tweak_table().map_values(|t: TweakScripts| (t.id@, false))
}

proof fn lemma_statuses_from_index(flags: Option<Seq<(Seq<char>, Option<bool>)>>, i: int)
    ensures
        flags is None ==> statuses_from(flags).len() == tweak_table().len(),
        flags matches Some(e) ==> statuses_from(flags).len() == e.len(),
        flags is None && 0 <= i < tweak_table().len() ==> statuses_from(flags)[i] == (
            tweak_table()[i].id@,
            false,
        ),
        flags matches Some(e) ==> (0 <= i < e.len() ==> statuses_from(flags)[i] == (
            e[i].0,
            match e[i].1 {
                Some(b) => b,
                None => false,
            },
        )),
{
}

/// Every tweak, none in effect (see `default_statuses`).
pub fn default_tweak_statuses() -> (r: Vec<TweakStatus>)
    ensures
        status_views(r@) == default_statuses(),
{
    let table = tweaks();
    let n = table.len();
    let mut r: Vec<TweakStatus> = Vec::new();
    for i in 0..n
        invariant
            n == table@.len(),
            table@ == tweak_table(),
            status_views(r@) == default_statuses().take(i as int),
            r@.len() == i,
    {
        let ghost before = r@;
        r.push(TweakStatus { id: String::from_str(table[i].id), active: false });
        proof {
            lemma_statuses_from_index(None, i as int);
        }
        assert(r@[i as int].id@ == tweak_table()[i as int].id@);
        assert(status_views(r@)[i as int] == default_statuses()[i as int]);
        assert(status_views(r@) =~= default_statuses().take(i + 1)) by {
            assert forall|k: int| 0 <= k < i implies status_views(r@)[k] == status_views(before)[k] by {
                assert(r@[k] == before[k]);
            }
        }
    }
    assert(default_statuses().take(n as int) =~= default_statuses());
    r
}

/// What `serde_json` reads from a JSON object whose members are tweak states:
/// no value when the text is not a JSON object; else its members, each with
/// the boolean it holds, none when it holds something else.
pub uninterp spec fn json_flag_entries(text: Seq<char>) -> Option<Seq<(Seq<char>, Option<bool>)>>;

/// Reads the members of a JSON object, each with its boolean value if it holds one.
///
/// Trusted: the body calls `serde_json::from_str::<serde_json::Map<String,
/// serde_json::Value>>` and walks the map. The contract names the result
/// `json_flag_entries` and states one more fact that the source shows: the
/// members come from a map, so no name comes out twice.
#[verifier::external_body]
fn read_json_flags(text: &str) -> (r: Option<Vec<(String, Option<bool>)>>)
    ensures
        r.deep_view() == json_flag_entries(text@),
        r.deep_view() matches Some(e) ==> forall|i: int, j: int|
            0 <= i < j < e.len() ==> #[trigger] e[i].0 != #[trigger] e[j].0,
{
    match serde_json::from_str::<serde_json::Map<String, serde_json::Value>>(text) {
        Ok(map) => Some(
            map.into_iter().map(
                |(name, value)|
                    match value {
                        serde_json::Value::Bool(b) => (name, Some(b)),
                        _ => (name, None),
                    },
            ).collect(),
        ),
        Err(_) => None,
    }
}

/// The tweak states that read JSON members give: each member is a tweak, in
/// effect when it holds `true`; every tweak not in effect when the text was no
/// JSON object.
pub open spec fn statuses_from(flags: Option<Seq<(Seq<char>, Option<bool>)>>) -> Seq<(Seq<char>, bool)> {
    match flags {
        None => default_statuses(),
        Some(entries) => entries.map_values(
            |e: (Seq<char>, Option<bool>)|
                (
                    e.0,
                    match e.1 {
                        Some(b) => b,
                        None => false,
                    },
                ),
        ),
    }
}

/// The tweak states that read JSON members give (see `statuses_from`).
pub fn statuses_from_flags(flags: Option<Vec<(String, Option<bool>)>>) -> (r: Vec<TweakStatus>)
    ensures
        status_views(r@) == statuses_from(flags.deep_view()),
{
    match flags {
        None => default_tweak_statuses(),
        Some(entries) => {
            let ghost ev = entries.deep_view();
            let mut rest = entries;
            let mut r: Vec<TweakStatus> = Vec::new();
            let n = rest.len();
            let mut k: usize = 0;
            while k < n
                invariant
                    k <= n == ev.len(),
                    rest.deep_view() == ev.skip(k as int),
                    status_views(r@) == statuses_from(Some(ev)).take(k as int),
                    r@.len() == k,
                decreases n - k,
            {
                assert(rest.deep_view().len() == rest@.len());
                let ghost old_rest = rest.deep_view();
                let (id, value) = rest.remove(0);
                assert(old_rest[0] == ev[k as int]);
                assert(rest.deep_view() =~= ev.skip(k + 1)) by {
                    assert forall|i: int| 0 <= i < rest.deep_view().len() implies rest.deep_view()[i]
                        == ev.skip(k + 1)[i] by {
                        assert(rest.deep_view()[i] == old_rest[i + 1]);
                    }
                }
                let active = match value {
                    Some(b) => b,
                    None => false,
                };
                let ghost before = r@;
                r.push(TweakStatus { id, active });
                proof {
                    lemma_statuses_from_index(Some(ev), k as int);
                }
                assert(status_views(r@)[k as int] == statuses_from(Some(ev))[k as int]);
                assert(status_views(r@) =~= statuses_from(Some(ev)).take(k + 1)) by {
                    assert forall|q: int| 0 <= q < k implies status_views(r@)[q] == status_views(
                        before,
                    )[q] by {
                        assert(r@[q] == before[q]);
                    }
                }
                k += 1;
            }
            assert(statuses_from(Some(ev)).take(n as int) =~= statuses_from(Some(ev)));
            r
        },
    }
}

/// The tweak states read from the output of the status query, or every tweak not
/// in effect when the query could not run (`None`) or its output, trimmed, is no
/// JSON object. No tweak appears twice.
pub fn tweak_statuses(output: Option<&str>) -> (r: Vec<TweakStatus>)
    ensures
        status_views(r@) == (match output {
            None => default_statuses(),
            Some(out) => statuses_from(json_flag_entries(trimmed(out@))),
        }),
        forall|i: int, j: int| 0 <= i < j < r@.len() ==> #[trigger] r@[i].id@ != #[trigger] r@[j].id@,
{
    proof {
        law_tweak_ids_distinct();
    }
    match output {
        None => {
            let r = default_tweak_statuses();
            assert forall|i: int, j: int| 0 <= i < j < r@.len() implies #[trigger] r@[i].id@
                != #[trigger] r@[j].id@ by {
                lemma_statuses_from_index(None, i);
                lemma_statuses_from_index(None, j);
                assert(status_views(r@)[i].0 == r@[i].id@);
                assert(status_views(r@)[j].0 == r@[j].id@);
            }
            r
        },
        Some(out) => {
            let text = trim(out);
            let flags = read_json_flags(text.as_str());
            let ghost fv = flags.deep_view();
            let ghost was_none = flags is None;
            let r = statuses_from_flags(flags);
            assert forall|i: int, j: int| 0 <= i < j < r@.len() implies #[trigger] r@[i].id@
                != #[trigger] r@[j].id@ by {
                assert(status_views(r@)[i].0 == r@[i].id@);
                assert(status_views(r@)[j].0 == r@[j].id@);
                lemma_statuses_from_index(fv, i);
                lemma_statuses_from_index(fv, j);
            }
            r
        },
    }
}


/// The query that prints the state of every tweak as one JSON object.
pub const TWEAK_STATUS_QUERY: &'static str = r#"
$r=[ordered]@{}
# ── Existants ──
$r.power=(powercfg /getactivescheme)-match '8c5e7fda'
$r.visual=try{(Get-ItemPropertyValue 'HKCU:\Software\Microsoft\Windows\CurrentVersion\Explorer\VisualEffects' VisualFXSetting -EA Stop)-eq 2}catch{$false}
$r.gamebar=try{(Get-ItemPropertyValue 'HKCU:\Software\Microsoft\GameBar' AllowAutoGameMode -EA Stop)-eq 0}catch{$false}
$r.network=$false;try{$r.network=((netsh int tcp show global)-join '')-match 'normal'}catch{}
$r.sysmain=(Get-Service SysMain -EA SilentlyContinue).StartType -eq 'Disabled'
$r.priority=try{(Get-ItemPropertyValue 'HKLM:\SYSTEM\CurrentControlSet\Control\PriorityControl' Win32PrioritySeparation -EA Stop)-eq 38}catch{$false}
$r.wsearch=(Get-Service WSearch -EA SilentlyContinue).StartType -eq 'Disabled'
$r.gamemode=try{(Get-ItemPropertyValue 'HKCU:\Software\Microsoft\GameBar' AutoGameModeEnabled -EA Stop)-eq 1}catch{$false}
# ── FPS Boost ──
$r.hags=try{(Get-ItemPropertyValue 'HKLM:\SYSTEM\CurrentControlSet\Control\GraphicsDrivers' HwSchMode -EA Stop)-eq 2}catch{$false}
$r.core_parking=$false;try{$out=(powercfg -q SCHEME_CURRENT 54533251-82be-4824-96c1-47b60b740d00 0cc5b647-c1df-4637-891a-dec35c318583 2>&1)-join ' ';$r.core_parking=$out -match '0x00000064'}catch{}
$r.power_throttling=try{(Get-ItemPropertyValue 'HKLM:\SYSTEM\CurrentControlSet\Control\Power\PowerThrottling' PowerThrottlingOff -EA Stop)-eq 1}catch{$false}
$r.timer_res=$false;try{$bcd=(bcdedit /enum '{current}' 2>&1)-join ' ';$r.timer_res=[bool]($bcd -match 'useplatformtick\s+Yes')}catch{}
# ── Latence ──
$r.nagle=$false;try{$i=(Get-ChildItem 'HKLM:\SYSTEM\CurrentControlSet\Services\Tcpip\Parameters\Interfaces' -EA Stop|Select -First 1);$r.nagle=(Get-ItemPropertyValue $i.PSPath TCPNoDelay -EA Stop)-eq 1}catch{}
$r.network_throttle=try{(Get-ItemPropertyValue 'HKLM:\SOFTWARE\Microsoft\Windows NT\CurrentVersion\Multimedia\SystemProfile' NetworkThrottlingIndex -EA Stop)-eq 4294967295}catch{$false}
$r.mmcss=try{(Get-ItemPropertyValue 'HKLM:\SOFTWARE\Microsoft\Windows NT\CurrentVersion\Multimedia\SystemProfile\Tasks\Games' Priority -EA Stop)-eq 6}catch{$false}
$r.dynamic_tick=$false;try{$bcd=(bcdedit /enum '{current}' 2>&1)-join ' ';$r.dynamic_tick=[bool]($bcd -match 'disabledynamictick\s+Yes')}catch{}
# ── Réseau ──
$r.dns_fast=$false;try{$a=Get-NetAdapter|Where-Object{$_.Status -eq 'Up'}|Select -First 1;if($a){$dns=(Get-DnsClientServerAddress -InterfaceIndex $a.ifIndex -AddressFamily IPv4 -EA Stop).ServerAddresses;$r.dns_fast=$dns -contains '1.1.1.1'}}catch{}
$r.qos=try{(Get-ItemPropertyValue 'HKLM:\SOFTWARE\Policies\Microsoft\Windows\Psched' NonBestEffortLimit -EA Stop)-eq 0}catch{$false}
$r.lso=$false;try{$p=Get-NetAdapterAdvancedProperty -EA Stop|Where-Object{$_.RegistryKeyword -like '*LsoV2*'}|Select -First 1;$r.lso=$p -and $p.RegistryValue -eq 0}catch{}
# ── Clavier & Souris ──
$r.mouse_accel=try{(Get-ItemPropertyValue 'HKCU:\Control Panel\Mouse' MouseSpeed -EA Stop)-eq '0'}catch{$false}
$r.mouse_raw=try{(Get-ItemPropertyValue 'HKLM:\SYSTEM\CurrentControlSet\Services\mouclass\Parameters' MouseDataQueueSize -EA Stop)-eq 20}catch{$false}
$r.keyboard_speed=try{(Get-ItemPropertyValue 'HKCU:\Control Panel\Keyboard' KeyboardSpeed -EA Stop)-eq '31'}catch{$false}
$r.keyboard_buffer=try{(Get-ItemPropertyValue 'HKLM:\SYSTEM\CurrentControlSet\Services\kbdclass\Parameters' KeyboardDataQueueSize -EA Stop)-eq 20}catch{$false}
# ── Services ──
$r.xbox_services=(Get-Service XblGameSave -EA SilentlyContinue).StartType -eq 'Disabled'
$r.diagtrack=(Get-Service DiagTrack -EA SilentlyContinue).StartType -eq 'Disabled'
# ── Alimentation ──
$guid='e9a42b02-d5df-448d-aa00-03f14749eb61'
$r.ultimate_performance=$false;try{$active=(powercfg /getactivescheme 2>&1|Out-String);$list=(powercfg /list 2>&1|Out-String);$r.ultimate_performance=($list -match $guid)-and($active -match $guid)}catch{}
# ── FPS avancés ──
$r.msi_mode=$false;try{$d=Get-PnpDevice -Class Display -Status OK -EA Stop|Select-Object -First 1;if($d){$p="HKLM:\SYSTEM\CurrentControlSet\Enum\$($d.InstanceId)\Device Parameters\Interrupt Management\MessageSignaledInterruptProperties";$r.msi_mode=try{(Get-ItemPropertyValue $p MSISupported -EA Stop)-eq 1}catch{$false}}}catch{}
$r.c_states=$false;try{$out=(powercfg -q SCHEME_CURRENT 54533251-82be-4824-96c1-47b60b740d00 5d76a2ca-e8c0-402f-a133-2158492d58ad 2>&1)-join ' ';$r.c_states=$out -match '0x00000001'}catch{}
# ── GPU NVIDIA ──
$r.nvidia_low_latency=$false;try{$cls='HKLM:\SYSTEM\CurrentControlSet\Control\Class\{4d36e968-e325-11ce-bfc1-08002be10318}';$k=Get-ChildItem $cls -EA Stop|Where-Object{try{(Get-ItemPropertyValue $_.PSPath 'DriverDesc' -EA Stop)-like '*NVIDIA*'}catch{$false}}|Select-Object -First 1;if($k){$r.nvidia_low_latency=try{(Get-ItemPropertyValue $k.PSPath 'D3DPrerenderedFrames' -EA Stop)-eq 0}catch{$false}}}catch{}
$r.nvidia_threaded_opt=$false;try{$cls='HKLM:\SYSTEM\CurrentControlSet\Control\Class\{4d36e968-e325-11ce-bfc1-08002be10318}';$k=Get-ChildItem $cls -EA Stop|Where-Object{try{(Get-ItemPropertyValue $_.PSPath 'DriverDesc' -EA Stop)-like '*NVIDIA*'}catch{$false}}|Select-Object -First 1;if($k){$r.nvidia_threaded_opt=try{(Get-ItemPropertyValue $k.PSPath 'OGLThreadControl' -EA Stop)-eq 0}catch{$false}}}catch{}
$r.nvidia_shader_cache=$false;try{$v=Get-ItemPropertyValue 'HKLM:\SOFTWARE\Microsoft\DirectX\UserGpuPreferences' DirectXUserGlobalSettings -EA Stop;$r.nvidia_shader_cache=$v -like '*EnabledGlobally*'}catch{}
# ── GPU AMD ──
$r.amd_ulps=$false;try{$cls='HKLM:\SYSTEM\CurrentControlSet\Control\Class\{4d36e968-e325-11ce-bfc1-08002be10318}';$k=Get-ChildItem $cls -EA Stop|Where-Object{try{$d=Get-ItemPropertyValue $_.PSPath 'DriverDesc' -EA Stop;$d -like '*AMD*'-or $d -like '*Radeon*'-or $d -like '*ATI*'}catch{$false}}|Select-Object -First 1;if($k){$r.amd_ulps=try{(Get-ItemPropertyValue $k.PSPath 'EnableUlps' -EA Stop)-eq 0}catch{$false}}}catch{}
$r.amd_anti_lag=$false;try{$cls='HKLM:\SYSTEM\CurrentControlSet\Control\Class\{4d36e968-e325-11ce-bfc1-08002be10318}';$k=Get-ChildItem $cls -EA Stop|Where-Object{try{$d=Get-ItemPropertyValue $_.PSPath 'DriverDesc' -EA Stop;$d -like '*AMD*'-or $d -like '*Radeon*'-or $d -like '*ATI*'}catch{$false}}|Select-Object -First 1;if($k){$r.amd_anti_lag=try{(Get-ItemPropertyValue $k.PSPath 'AmdPowerXpressRequestHighPerformance' -EA Stop)-eq 1}catch{$false}}}catch{}
# ── Defender ──
$r.defender_realtime=$false;try{$pref=Get-MpPreference -EA Stop;$r.defender_realtime=$pref.DisableRealtimeMonitoring -eq $true}catch{}
$r|ConvertTo-Json -Compress
"#;

} // verus!
