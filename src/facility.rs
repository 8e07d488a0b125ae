//! Facility codes of result codes.
use vstd::prelude::*;

verus! {

/// The facility field of a result code: which subsystem produced it.
#[derive(Copy, Clone, Debug, PartialEq, Eq, Structural)]
pub struct Facility(pub u32);

pub const FACILITY_NULL: u32 = 0;
pub const FACILITY_RPC: u32 = 1;
pub const FACILITY_DISPATCH: u32 = 2;
pub const FACILITY_STORAGE: u32 = 3;
pub const FACILITY_ITF: u32 = 4;
pub const FACILITY_WIN32: u32 = 7;
pub const FACILITY_WINDOWS: u32 = 8;
pub const FACILITY_SECURITY: u32 = 9;
pub const FACILITY_SSPI: u32 = 9;
pub const FACILITY_CONTROL: u32 = 10;
pub const FACILITY_CERT: u32 = 11;
pub const FACILITY_INTERNET: u32 = 12;
pub const FACILITY_MEDIASERVER: u32 = 13;
pub const FACILITY_MSMQ: u32 = 14;
pub const FACILITY_SETUPAPI: u32 = 15;
pub const FACILITY_SCARD: u32 = 16;
pub const FACILITY_COMPLUS: u32 = 17;
pub const FACILITY_AAF: u32 = 18;
pub const FACILITY_URT: u32 = 19;
pub const FACILITY_ACS: u32 = 20;
pub const FACILITY_DPLAY: u32 = 21;
pub const FACILITY_UMI: u32 = 22;
pub const FACILITY_SXS: u32 = 23;
pub const FACILITY_WINDOWS_CE: u32 = 24;
pub const FACILITY_HTTP: u32 = 25;
pub const FACILITY_USERMODE_COMMONLOG: u32 = 26;
pub const FACILITY_USERMODE_FILTER_MANAGER: u32 = 31;
pub const FACILITY_BACKGROUNDCOPY: u32 = 32;
pub const FACILITY_CONFIGURATION: u32 = 33;
pub const FACILITY_STATE_MANAGEMENT: u32 = 34;
pub const FACILITY_METADIRECTORY: u32 = 35;
pub const FACILITY_WINDOWSUPDATE: u32 = 36;
pub const FACILITY_DIRECTORYSERVICE: u32 = 37;
pub const FACILITY_GRAPHICS: u32 = 38;
pub const FACILITY_SHELL: u32 = 39;
pub const FACILITY_TPM_SERVICES: u32 = 40;
pub const FACILITY_TPM_SOFTWARE: u32 = 41;
pub const FACILITY_PLA: u32 = 48;
pub const FACILITY_FVE: u32 = 49;
pub const FACILITY_FWP: u32 = 50;
pub const FACILITY_WINRM: u32 = 51;
pub const FACILITY_NDIS: u32 = 52;
pub const FACILITY_USERMODE_HYPERVISOR: u32 = 53;
pub const FACILITY_CMI: u32 = 54;
pub const FACILITY_USERMODE_VIRTUALIZATION: u32 = 55;
pub const FACILITY_USERMODE_VOLMGR: u32 = 56;
pub const FACILITY_BCD: u32 = 57;
pub const FACILITY_USERMODE_VHD: u32 = 58;
pub const FACILITY_SDIAG: u32 = 60;
pub const FACILITY_WEBSERVICES: u32 = 61;
pub const FACILITY_WINDOWS_DEFENDER: u32 = 80;
pub const FACILITY_OPC: u32 = 81;

/// The symbolic name of each known facility.
pub open spec fn facility_name(code: u32) -> Option<Seq<char>> {
    match code {
        FACILITY_NULL => Some("FACILITY_NULL"@),
        FACILITY_RPC => Some("FACILITY_RPC"@),
        FACILITY_DISPATCH => Some("FACILITY_DISPATCH"@),
        FACILITY_STORAGE => Some("FACILITY_STORAGE"@),
        FACILITY_ITF => Some("FACILITY_ITF"@),
        FACILITY_WIN32 => Some("FACILITY_WIN32"@),
        FACILITY_WINDOWS => Some("FACILITY_WINDOWS"@),
        FACILITY_SECURITY => Some("FACILITY_SECURITY"@),
        FACILITY_CONTROL => Some("FACILITY_CONTROL"@),
        FACILITY_CERT => Some("FACILITY_CERT"@),
        FACILITY_INTERNET => Some("FACILITY_INTERNET"@),
        FACILITY_MEDIASERVER => Some("FACILITY_MEDIASERVER"@),
        FACILITY_MSMQ => Some("FACILITY_MSMQ"@),
        FACILITY_SETUPAPI => Some("FACILITY_SETUPAPI"@),
        FACILITY_SCARD => Some("FACILITY_SCARD"@),
        FACILITY_COMPLUS => Some("FACILITY_COMPLUS"@),
        FACILITY_AAF => Some("FACILITY_AAF"@),
        FACILITY_URT => Some("FACILITY_URT"@),
        FACILITY_ACS => Some("FACILITY_ACS"@),
        FACILITY_DPLAY => Some("FACILITY_DPLAY"@),
        FACILITY_UMI => Some("FACILITY_UMI"@),
        FACILITY_SXS => Some("FACILITY_SXS"@),
        FACILITY_WINDOWS_CE => Some("FACILITY_WINDOWS_CE"@),
        FACILITY_HTTP => Some("FACILITY_HTTP"@),
        FACILITY_USERMODE_COMMONLOG => Some("FACILITY_USERMODE_COMMONLOG"@),
        FACILITY_USERMODE_FILTER_MANAGER => Some("FACILITY_USERMODE_FILTER_MANAGER"@),
        FACILITY_BACKGROUNDCOPY => Some("FACILITY_BACKGROUNDCOPY"@),
        FACILITY_CONFIGURATION => Some("FACILITY_CONFIGURATION"@),
        FACILITY_STATE_MANAGEMENT => Some("FACILITY_STATE_MANAGEMENT"@),
        FACILITY_METADIRECTORY => Some("FACILITY_METADIRECTORY"@),
        FACILITY_WINDOWSUPDATE => Some("FACILITY_WINDOWSUPDATE"@),
        FACILITY_DIRECTORYSERVICE => Some("FACILITY_DIRECTORYSERVICE"@),
        FACILITY_GRAPHICS => Some("FACILITY_GRAPHICS"@),
        FACILITY_SHELL => Some("FACILITY_SHELL"@),
        FACILITY_TPM_SERVICES => Some("FACILITY_TPM_SERVICES"@),
        FACILITY_TPM_SOFTWARE => Some("FACILITY_TPM_SOFTWARE"@),
        FACILITY_PLA => Some("FACILITY_PLA"@),
        FACILITY_FVE => Some("FACILITY_FVE"@),
        FACILITY_FWP => Some("FACILITY_FWP"@),
        FACILITY_WINRM => Some("FACILITY_WINRM"@),
        FACILITY_NDIS => Some("FACILITY_NDIS"@),
        FACILITY_USERMODE_HYPERVISOR => Some("FACILITY_USERMODE_HYPERVISOR"@),
        FACILITY_CMI => Some("FACILITY_CMI"@),
        FACILITY_USERMODE_VIRTUALIZATION => Some("FACILITY_USERMODE_VIRTUALIZATION"@),
        FACILITY_USERMODE_VOLMGR => Some("FACILITY_USERMODE_VOLMGR"@),
        FACILITY_BCD => Some("FACILITY_BCD"@),
        FACILITY_USERMODE_VHD => Some("FACILITY_USERMODE_VHD"@),
        FACILITY_SDIAG => Some("FACILITY_SDIAG"@),
        FACILITY_WEBSERVICES => Some("FACILITY_WEBSERVICES"@),
        FACILITY_WINDOWS_DEFENDER => Some("FACILITY_WINDOWS_DEFENDER"@),
        FACILITY_OPC => Some("FACILITY_OPC"@),
        _ => None,
    }
}

/// Returns the symbolic name of a known facility.
pub fn name(facility: Facility) -> (r: Option<&'static str>)
    ensures
        match r {
            Some(s) => facility_name(facility.0) == Some(s@),
            None => facility_name(facility.0) is None,
        },
{
    match facility.0 {
        FACILITY_NULL => Some("FACILITY_NULL"),
        FACILITY_RPC => Some("FACILITY_RPC"),
        FACILITY_DISPATCH => Some("FACILITY_DISPATCH"),
        FACILITY_STORAGE => Some("FACILITY_STORAGE"),
        FACILITY_ITF => Some("FACILITY_ITF"),
        FACILITY_WIN32 => Some("FACILITY_WIN32"),
        FACILITY_WINDOWS => Some("FACILITY_WINDOWS"),
        FACILITY_SECURITY => Some("FACILITY_SECURITY"),
        FACILITY_CONTROL => Some("FACILITY_CONTROL"),
        FACILITY_CERT => Some("FACILITY_CERT"),
        FACILITY_INTERNET => Some("FACILITY_INTERNET"),
        FACILITY_MEDIASERVER => Some("FACILITY_MEDIASERVER"),
        FACILITY_MSMQ => Some("FACILITY_MSMQ"),
        FACILITY_SETUPAPI => Some("FACILITY_SETUPAPI"),
        FACILITY_SCARD => Some("FACILITY_SCARD"),
        FACILITY_COMPLUS => Some("FACILITY_COMPLUS"),
        FACILITY_AAF => Some("FACILITY_AAF"),
        FACILITY_URT => Some("FACILITY_URT"),
        FACILITY_ACS => Some("FACILITY_ACS"),
        FACILITY_DPLAY => Some("FACILITY_DPLAY"),
        FACILITY_UMI => Some("FACILITY_UMI"),
        FACILITY_SXS => Some("FACILITY_SXS"),
        FACILITY_WINDOWS_CE => Some("FACILITY_WINDOWS_CE"),
        FACILITY_HTTP => Some("FACILITY_HTTP"),
        FACILITY_USERMODE_COMMONLOG => Some("FACILITY_USERMODE_COMMONLOG"),
        FACILITY_USERMODE_FILTER_MANAGER => Some("FACILITY_USERMODE_FILTER_MANAGER"),
        FACILITY_BACKGROUNDCOPY => Some("FACILITY_BACKGROUNDCOPY"),
        FACILITY_CONFIGURATION => Some("FACILITY_CONFIGURATION"),
        FACILITY_STATE_MANAGEMENT => Some("FACILITY_STATE_MANAGEMENT"),
        FACILITY_METADIRECTORY => Some("FACILITY_METADIRECTORY"),
        FACILITY_WINDOWSUPDATE => Some("FACILITY_WINDOWSUPDATE"),
        FACILITY_DIRECTORYSERVICE => Some("FACILITY_DIRECTORYSERVICE"),
        FACILITY_GRAPHICS => Some("FACILITY_GRAPHICS"),
        FACILITY_SHELL => Some("FACILITY_SHELL"),
        FACILITY_TPM_SERVICES => Some("FACILITY_TPM_SERVICES"),
        FACILITY_TPM_SOFTWARE => Some("FACILITY_TPM_SOFTWARE"),
        FACILITY_PLA => Some("FACILITY_PLA"),
        FACILITY_FVE => Some("FACILITY_FVE"),
        FACILITY_FWP => Some("FACILITY_FWP"),
        FACILITY_WINRM => Some("FACILITY_WINRM"),
        FACILITY_NDIS => Some("FACILITY_NDIS"),
        FACILITY_USERMODE_HYPERVISOR => Some("FACILITY_USERMODE_HYPERVISOR"),
        FACILITY_CMI => Some("FACILITY_CMI"),
        FACILITY_USERMODE_VIRTUALIZATION => Some("FACILITY_USERMODE_VIRTUALIZATION"),
        FACILITY_USERMODE_VOLMGR => Some("FACILITY_USERMODE_VOLMGR"),
        FACILITY_BCD => Some("FACILITY_BCD"),
        FACILITY_USERMODE_VHD => Some("FACILITY_USERMODE_VHD"),
        FACILITY_SDIAG => Some("FACILITY_SDIAG"),
        FACILITY_WEBSERVICES => Some("FACILITY_WEBSERVICES"),
        FACILITY_WINDOWS_DEFENDER => Some("FACILITY_WINDOWS_DEFENDER"),
        FACILITY_OPC => Some("FACILITY_OPC"),
        _ => None,
    }
}

/// The description of each known facility.
pub open spec fn facility_desc(code: u32) -> Option<Seq<char>> {
    match code {
        FACILITY_NULL => Some("The default facility code."@),
        FACILITY_RPC => Some("The source of the error code is an RPC subsystem."@),
        FACILITY_DISPATCH => Some("The source of the error code is a COM Dispatch."@),
        FACILITY_STORAGE => Some("The source of the error code is OLE Storage."@),
        FACILITY_ITF => Some("The source of the error code is COM/OLE Interface management."@),
        FACILITY_WIN32 => Some("This region is reserved to map undecorated error codes into HRESULTs."@),
        FACILITY_WINDOWS => Some("The source of the error code is the Windows subsystem."@),
        FACILITY_SECURITY => Some("The source of the error code is the Security API layer."@),
        FACILITY_CONTROL => Some("The source of the error code is the control mechanism."@),
        FACILITY_CERT => Some("The source of the error code is a certificate client or server? "@),
        FACILITY_INTERNET => Some("The source of the error code is Wininet related."@),
        FACILITY_MEDIASERVER => Some("The source of the error code is the Windows Media Server."@),
        FACILITY_MSMQ => Some("The source of the error code is the Microsoft Message Queue."@),
        FACILITY_SETUPAPI => Some("The source of the error code is the Setup API."@),
        FACILITY_SCARD => Some("The source of the error code is the Smart-card subsystem."@),
        FACILITY_COMPLUS => Some("The source of the error code is COM+."@),
        FACILITY_AAF => Some("The source of the error code is the Microsoft agent."@),
        FACILITY_URT => Some("The source of the error code is .NET CLR."@),
        FACILITY_ACS => Some("The source of the error code is the audit collection service."@),
        FACILITY_DPLAY => Some("The source of the error code is Direct Play."@),
        FACILITY_UMI => Some("The source of the error code is the ubiquitous memory introspection service."@),
        FACILITY_SXS => Some("The source of the error code is Side-by-side servicing."@),
        FACILITY_WINDOWS_CE => Some("The error code is specific to Windows CE."@),
        FACILITY_HTTP => Some("The source of the error code is HTTP support."@),
        FACILITY_USERMODE_COMMONLOG => Some("The source of the error code is common Logging support."@),
        FACILITY_USERMODE_FILTER_MANAGER => Some("The source of the error code is the user mode filter manager."@),
        FACILITY_BACKGROUNDCOPY => Some("The source of the error code is background copy control"@),
        FACILITY_CONFIGURATION => Some("The source of the error code is configuration services."@),
        FACILITY_STATE_MANAGEMENT => Some("The source of the error code is state management services."@),
        FACILITY_METADIRECTORY => Some("The source of the error code is the Microsoft Identity Server."@),
        FACILITY_WINDOWSUPDATE => Some("The source of the error code is a Windows update."@),
        FACILITY_DIRECTORYSERVICE => Some("The source of the error code is Active Directory."@),
        FACILITY_GRAPHICS => Some("The source of the error code is the graphics drivers."@),
        FACILITY_SHELL => Some("The source of the error code is the user Shell."@),
        FACILITY_TPM_SERVICES => Some("The source of the error code is the Trusted Platform Module services."@),
        FACILITY_TPM_SOFTWARE => Some("The source of the error code is the Trusted Platform Module applications."@),
        FACILITY_PLA => Some("The source of the error code is Performance Logs and Alerts"@),
        FACILITY_FVE => Some("The source of the error code is Full volume encryption."@),
        FACILITY_FWP => Some("The source of the error code is the Firewall Platform."@),
        FACILITY_WINRM => Some("The source of the error code is the Windows Resource Manager."@),
        FACILITY_NDIS => Some("The source of the error code is the Network Driver Interface."@),
        FACILITY_USERMODE_HYPERVISOR => Some("The source of the error code is the Usermode Hypervisor components."@),
        FACILITY_CMI => Some("The source of the error code is the Configuration Management Infrastructure."@),
        FACILITY_USERMODE_VIRTUALIZATION => Some("The source of the error code is the user mode virtualization subsystem."@),
        FACILITY_USERMODE_VOLMGR => Some("The source of the error code is the user mode volume manager"@),
        FACILITY_BCD => Some("The source of the error code is the Boot Configuration Database."@),
        FACILITY_USERMODE_VHD => Some("The source of the error code is user mode virtual hard disk support."@),
        FACILITY_SDIAG => Some("The source of the error code is System Diagnostics."@),
        FACILITY_WEBSERVICES => Some("The source of the error code is the Web Services."@),
        FACILITY_WINDOWS_DEFENDER => Some("The source of the error code is a Windows Defender component."@),
        FACILITY_OPC => Some("The source of the error code is the open connectivity service."@),
        _ => None,
    }
}

/// Returns a description of a known facility.
pub fn desc(facility: Facility) -> (r: Option<&'static str>)
    ensures
        match r {
            Some(s) => facility_desc(facility.0) == Some(s@),
            None => facility_desc(facility.0) is None,
        },
{
    match facility.0 {
        FACILITY_NULL => Some("The default facility code."),
        FACILITY_RPC => Some("The source of the error code is an RPC subsystem."),
        FACILITY_DISPATCH => Some("The source of the error code is a COM Dispatch."),
        FACILITY_STORAGE => Some("The source of the error code is OLE Storage."),
        FACILITY_ITF => Some("The source of the error code is COM/OLE Interface management."),
        FACILITY_WIN32 => Some("This region is reserved to map undecorated error codes into HRESULTs."),
        FACILITY_WINDOWS => Some("The source of the error code is the Windows subsystem."),
        FACILITY_SECURITY => Some("The source of the error code is the Security API layer."),
        FACILITY_CONTROL => Some("The source of the error code is the control mechanism."),
        FACILITY_CERT => Some("The source of the error code is a certificate client or server? "),
        FACILITY_INTERNET => Some("The source of the error code is Wininet related."),
        FACILITY_MEDIASERVER => Some("The source of the error code is the Windows Media Server."),
        FACILITY_MSMQ => Some("The source of the error code is the Microsoft Message Queue."),
        FACILITY_SETUPAPI => Some("The source of the error code is the Setup API."),
        FACILITY_SCARD => Some("The source of the error code is the Smart-card subsystem."),
        FACILITY_COMPLUS => Some("The source of the error code is COM+."),
        FACILITY_AAF => Some("The source of the error code is the Microsoft agent."),
        FACILITY_URT => Some("The source of the error code is .NET CLR."),
        FACILITY_ACS => Some("The source of the error code is the audit collection service."),
        FACILITY_DPLAY => Some("The source of the error code is Direct Play."),
        FACILITY_UMI => Some("The source of the error code is the ubiquitous memory introspection service."),
        FACILITY_SXS => Some("The source of the error code is Side-by-side servicing."),
        FACILITY_WINDOWS_CE => Some("The error code is specific to Windows CE."),
        FACILITY_HTTP => Some("The source of the error code is HTTP support."),
        FACILITY_USERMODE_COMMONLOG => Some("The source of the error code is common Logging support."),
        FACILITY_USERMODE_FILTER_MANAGER => Some("The source of the error code is the user mode filter manager."),
        FACILITY_BACKGROUNDCOPY => Some("The source of the error code is background copy control"),
        FACILITY_CONFIGURATION => Some("The source of the error code is configuration services."),
        FACILITY_STATE_MANAGEMENT => Some("The source of the error code is state management services."),
        FACILITY_METADIRECTORY => Some("The source of the error code is the Microsoft Identity Server."),
        FACILITY_WINDOWSUPDATE => Some("The source of the error code is a Windows update."),
        FACILITY_DIRECTORYSERVICE => Some("The source of the error code is Active Directory."),
        FACILITY_GRAPHICS => Some("The source of the error code is the graphics drivers."),
        FACILITY_SHELL => Some("The source of the error code is the user Shell."),
        FACILITY_TPM_SERVICES => Some("The source of the error code is the Trusted Platform Module services."),
        FACILITY_TPM_SOFTWARE => Some("The source of the error code is the Trusted Platform Module applications."),
        FACILITY_PLA => Some("The source of the error code is Performance Logs and Alerts"),
        FACILITY_FVE => Some("The source of the error code is Full volume encryption."),
        FACILITY_FWP => Some("The source of the error code is the Firewall Platform."),
        FACILITY_WINRM => Some("The source of the error code is the Windows Resource Manager."),
        FACILITY_NDIS => Some("The source of the error code is the Network Driver Interface."),
        FACILITY_USERMODE_HYPERVISOR => Some("The source of the error code is the Usermode Hypervisor components."),
        FACILITY_CMI => Some("The source of the error code is the Configuration Management Infrastructure."),
        FACILITY_USERMODE_VIRTUALIZATION => Some("The source of the error code is the user mode virtualization subsystem."),
        FACILITY_USERMODE_VOLMGR => Some("The source of the error code is the user mode volume manager"),
        FACILITY_BCD => Some("The source of the error code is the Boot Configuration Database."),
        FACILITY_USERMODE_VHD => Some("The source of the error code is user mode virtual hard disk support."),
        FACILITY_SDIAG => Some("The source of the error code is System Diagnostics."),
        FACILITY_WEBSERVICES => Some("The source of the error code is the Web Services."),
        FACILITY_WINDOWS_DEFENDER => Some("The source of the error code is a Windows Defender component."),
        FACILITY_OPC => Some("The source of the error code is the open connectivity service."),
        _ => None,
    }
}

} // verus!
