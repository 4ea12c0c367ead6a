use vstd::prelude::*;

verus! {

/// Failures of settings handling.
#[derive(Debug)]
pub enum SettingsError {
    LoadError(String),
    SaveError(String),
    GetUsbDevicesError(String),
}

/// Failures of file handling around the library.
#[derive(Debug)]
pub enum FileError {
    ReadError(String),
    WriteError(String),
    EnsureFileError(String),
    InvalidFileType,
    ParseJsonError(String),
    CreateDirError(String),
    SerializeError(String),
    InvalidPathError(String),
}

/// Failures of the field-bus register reader.
#[derive(Debug)]
pub enum ModbusError {
    ConnectionError(String),
    ReadCoilsError(String),
    WriteCoilsError(String),
    ReadHoldingRegistersError(String),
    WriteHoldingRegistersError(String),
    WriteSingleCoilError(String),
    WriteSingleRegisterError(String),
}

/// Failures of the equilibrium root finder.
#[derive(Clone, Copy, Debug, PartialEq, Eq, Structural)]
pub enum RootError {
    NotFoundedRoot,
    DivisionByZero,
    NegativeRootError,
}

/// Failures of bulk import.
#[derive(Debug)]
pub enum ImportError {
    InvalidFormat(String),
}

/// Failures of the data providers.
#[derive(Debug)]
pub enum DataError {
    EmptyDataError,
    NoMoreDataError,
    NoDataError,
    CustomError(String),
}

/// The library's error taxonomy; every failure a caller can see is one of
/// these kinds.
#[derive(Debug)]
pub enum Error {
    SettingsError(SettingsError),
    FileError(FileError),
    ModbusError(ModbusError),
    RootError(RootError),
    DataError(DataError),
    ImportError(ImportError),
}

} // verus!
