//! The error taxonomy shared by every layer of the library.
use vstd::prelude::*;

verus! {

/// Why a measurement, a listing or a configuration change failed.
#[derive(Clone, Debug)]
pub enum NetworkError {
    /// The interface enumeration backend failed; holds its status code.
    WindowsApi(i32),
    MemoryAllocation,
    InvalidInterface,
    /// Two readings were closer together than the configured minimum.
    InsufficientTimeElapsed { min_ms: u64, actual_ms: u64 },
    /// The filters accepted none of the enumerated interfaces.
    NoInterfacesFound,
    InterfaceOperationFailed { reason: String },
    /// A counter difference exceeded the wraparound threshold.
    CalculationOverflow,
    InvalidConfiguration { field: String },
}

pub type Result<T> = core::result::Result<T, NetworkError>;

impl NetworkError {
    /// Errors that a later attempt may not repeat.
    pub open spec fn recoverable(&self) -> bool {
        self is InsufficientTimeElapsed || self is CalculationOverflow
    }

    pub open spec fn code_of(&self) -> u32 {
        match self {
            NetworkError::WindowsApi(_) => 1001,
            NetworkError::MemoryAllocation => 1002,
            NetworkError::InvalidInterface => 1003,
            NetworkError::InsufficientTimeElapsed { .. } => 1004,
            NetworkError::NoInterfacesFound => 1005,
            NetworkError::InterfaceOperationFailed { .. } => 1006,
            NetworkError::CalculationOverflow => 1007,
            NetworkError::InvalidConfiguration { .. } => 1008,
        }
    }

    pub fn is_recoverable(&self) -> (r: bool)
        ensures
            r == self.recoverable(),
    {
        match self {
            NetworkError::InsufficientTimeElapsed { .. } => true,
            NetworkError::CalculationOverflow => true,
            _ => false,
        }
    }

    pub fn error_code(&self) -> (r: u32)
        ensures
            r == self.code_of(),
    {
        match self {
            NetworkError::WindowsApi(_) => 1001,
            NetworkError::MemoryAllocation => 1002,
            NetworkError::InvalidInterface => 1003,
            NetworkError::InsufficientTimeElapsed { .. } => 1004,
            NetworkError::NoInterfacesFound => 1005,
            NetworkError::InterfaceOperationFailed { .. } => 1006,
            NetworkError::CalculationOverflow => 1007,
            NetworkError::InvalidConfiguration { .. } => 1008,
        }
    }
}

} // verus!
