//! Small value types of the service driver: environment variables, architectures, binary
//! platforms, and the errors of the driver.

use vstd::prelude::*;
use vstd::string::*;

verus! {

/// An environment variable and its value.
#[derive(Debug, Clone, Eq, PartialEq, Hash)]
pub struct EnvVar {
    env: String,
    value: String,
}

impl EnvVar {
    pub fn new(env: String, value: String) -> (v: Self)
        ensures
            v.name_text() == env@,
            v.value_text() == value@,
    {
        EnvVar { env, value }
    }

    /// The name of the variable.
    pub closed spec fn name_text(&self) -> Seq<char> {
        self.env@
    }

    /// The value of the variable.
    pub closed spec fn value_text(&self) -> Seq<char> {
        self.value@
    }

    /// The name and the value, as owned strings.
    pub fn values(&self) -> (r: (String, String))
        ensures
            r.0@ == self.name_text(),
            r.1@ == self.value_text(),
    {
        (self.env.clone(), self.value.clone())
    }

    /// The variable as it displays: `EnvVar { Env: .. Value: .. }`.
    pub fn to_string(&self) -> (s: String)
        ensures
            s@ == "EnvVar { Env: "@ + self.name_text() + " Value: "@ + self.value_text()
                + " }"@,
    {
        let mut s = String::from_str("EnvVar { Env: ");
        s.append(self.env.as_str());
        s.append(" Value: ");
        s.append(self.value.as_str());
        s.append(" }");
        s
    }
}

/// A CPU architecture.
#[derive(Debug, Copy, Clone, Eq, PartialEq, Hash)]
pub enum Architecture {
    X8664,
    ARM64,
}

/// The name of an architecture.
pub open spec fn architecture_name(a: Architecture) -> Seq<char> {
    match a {
        Architecture::X8664 => "x86-64"@,
        Architecture::ARM64 => "aarch64"@,
    }
}

impl Architecture {
    pub fn as_str(&self) -> (s: &'static str)
        ensures
            s@ == architecture_name(*self),
    {
        match self {
            Architecture::X8664 => "x86-64",
            Architecture::ARM64 => "aarch64",
        }
    }

    /// The architecture as it displays: its name.
    pub fn to_string(&self) -> (s: String)
        ensures
            s@ == architecture_name(*self),
    {
        String::from_str(self.as_str())
    }
}

/// The platform of a binary, as `file` describes it.
#[derive(Debug, Copy, Clone, Eq, PartialEq, Hash)]
pub enum Platform {
    MacOsArm64,
    MacOsX8664,
    LinuxX8664Static,
    LinuxArm64Static,
    LinuxX8664Dynamic,
    LinuxArm64Dynamic,
}

/// How `file` describes a binary of a platform. macOS binaries can only be linked
/// dynamically, so theirs names no linkage.
pub open spec fn platform_description(p: Platform) -> Seq<char> {
    match p {
        Platform::MacOsArm64 => "Mach-O 64-bit executable arm64"@,
        Platform::MacOsX8664 => "Mach-O 64-bit executable x86-64"@,
        Platform::LinuxX8664Static => "ELF 64-bit LSB pie executable, x86-64, version 1 (SYSV), static-pie linked"@,
        Platform::LinuxArm64Static => "ELF 64-bit LSB executable, ARM aarch64, version 1 (SYSV), statically linked"@,
        Platform::LinuxX8664Dynamic => "ELF 64-bit LSB shared object, x86-64"@,
        Platform::LinuxArm64Dynamic => "ELF 64-bit LSB shared object, ARM aarch64"@,
    }
}

impl Platform {
    pub fn as_str(&self) -> (s: &'static str)
        ensures
            s@ == platform_description(*self),
    {
        match self {
            Platform::MacOsArm64 => "Mach-O 64-bit executable arm64",
            Platform::MacOsX8664 => "Mach-O 64-bit executable x86-64",
            Platform::LinuxX8664Static => "ELF 64-bit LSB pie executable, x86-64, version 1 (SYSV), static-pie linked",
            Platform::LinuxArm64Static => "ELF 64-bit LSB executable, ARM aarch64, version 1 (SYSV), statically linked",
            Platform::LinuxX8664Dynamic => "ELF 64-bit LSB shared object, x86-64",
            Platform::LinuxArm64Dynamic => "ELF 64-bit LSB shared object, ARM aarch64",
        }
    }

    /// The platform as it displays: its description.
    pub fn to_string(&self) -> (s: String)
        ensures
            s@ == platform_description(*self),
    {
        String::from_str(self.as_str())
    }
}

/// Why a service binary could not be used.
#[derive(Debug, Clone, Eq, PartialEq, Hash)]
pub enum VerifyBinaryError {
    BinaryNotFound(String),
    BinaryWrongPlatform(String, String),
}

/// How a [`VerifyBinaryError`] displays.
pub open spec fn verify_binary_error_text(e: VerifyBinaryError) -> Seq<char> {
    match e {
        VerifyBinaryError::BinaryNotFound(b) => "[VerifyBinaryError]: Binary not found: "@ + b@,
        VerifyBinaryError::BinaryWrongPlatform(target, actual) =>
            "[VerifyBinaryError]: Binary has wrong platform. \n\n                    Binary platform should be "@
            + target@ + ", but got "@ + actual@ + " "@,
    }
}

impl VerifyBinaryError {
    /// The error as it displays.
    pub fn to_string(&self) -> (s: String)
        ensures
            s@ == verify_binary_error_text(*self),
    {
        match self {
            VerifyBinaryError::BinaryNotFound(b) => {
                let mut s = String::from_str("[VerifyBinaryError]: Binary not found: ");
                s.append(b.as_str());
                s
            },
            VerifyBinaryError::BinaryWrongPlatform(target, actual) => {
                let mut s = String::from_str(
                    "[VerifyBinaryError]: Binary has wrong platform. \n\n                    Binary platform should be ",
                );
                s.append(target.as_str());
                s.append(", but got ");
                s.append(actual.as_str());
                s.append(" ");
                s
            },
        }
    }
}

/// An error of the service driver, carrying its message.
#[derive(Debug, Clone, Eq, PartialEq, Hash)]
pub enum ServiceUtilError {
    /// A binary is missing, or was not declared to the driver.
    BinaryNotFound(String),
    /// The service process could not be started.
    ServiceStartFailed(String),
    /// The service process could not be stopped.
    ServiceStopFailed(String),
    /// The service did not become ready.
    ServiceHealthcheckFailed(String),
    /// The wait strategy cannot be honoured by this driver.
    UnsupportedWaitStrategy(String),
}

/// How a [`ServiceUtilError`] displays: what went wrong, then its message.
pub open spec fn service_error_text(e: ServiceUtilError) -> Seq<char> {
    match e {
        ServiceUtilError::BinaryNotFound(m) => "Binary not found: "@ + m@,
        ServiceUtilError::ServiceStartFailed(m) => "Service start failed: "@ + m@,
        ServiceUtilError::ServiceStopFailed(m) => "Service stop failed: "@ + m@,
        ServiceUtilError::ServiceHealthcheckFailed(m) => "Service healthcheck failed: "@ + m@,
        ServiceUtilError::UnsupportedWaitStrategy(m) => "Unsupported wait strategy: "@ + m@,
    }
}

impl ServiceUtilError {
    /// The error as it displays.
    pub fn to_string(&self) -> (s: String)
        ensures
            s@ == service_error_text(*self),
    {
        let (head, m) = match self {
            ServiceUtilError::BinaryNotFound(m) => ("Binary not found: ", m),
            ServiceUtilError::ServiceStartFailed(m) => ("Service start failed: ", m),
            ServiceUtilError::ServiceStopFailed(m) => ("Service stop failed: ", m),
            ServiceUtilError::ServiceHealthcheckFailed(m) => ("Service healthcheck failed: ", m),
            ServiceUtilError::UnsupportedWaitStrategy(m) => ("Unsupported wait strategy: ", m),
        };
        let mut s = String::from_str(head);
        s.append(m.as_str());
        s
    }
}

} // verus!
