//! The IEC 60870-5-101/-104 application layer: the data unit identifier, the
//! information elements, the time tags, and the ASDU container with its
//! builders and decoders.

pub mod codec;
pub mod cpara;
pub mod cproc;
pub mod filet;
pub mod csys;
pub mod identifier;
pub mod objects;
pub mod info;
pub mod mproc;
pub mod params;
pub mod time;

pub use codec::{ASDU_SIZE_MAX, Asdu, Encoder, InfoObjReader};
pub use cpara::{ParameterActivationInfo, ParameterFloatInfo, ParameterNormalInfo, ParameterScaledInfo};
pub use cproc::{
    BitsString32CommandInfo, DoubleCommandInfo, SetpointCommandFloatInfo, SetpointCommandNormalInfo,
    SetpointCommandScaledInfo, SingleCommandInfo, StepCommandInfo,
};
pub use filet::{
    AckFileOrSectionInfo, AckFileOrSectionQualifier, AfqAction, CallOrSelectFileInfo, DirectoryInfo, FileError,
    FileReadyInfo, FileReadyQualifier, LENGTH_OF_FILE_MAX, LastSectionOrSegmentInfo, LastSectionQualifier,
    NameOfFile, ScqAction, SectionReadyInfo, SectionReadyQualifier, SegmentInfo, SelectAndCallQualifier,
    StatusOfFile, file_checksum,
};
pub use identifier::{
    Cause, CauseOfTransmission, CommonAddr, GLOBAL_COMMON_ADDR, INVALID_COMMON_ADDR, Identifier, OriginAddr,
    TypeId, VariableStruct,
};
pub use info::{
    BinaryCounterReading, CauseOfInitial, CoiCause, DoubleCommand, DoublePoint, FBP_TEST_WORD,
    INFO_OBJ_ADDR_IRRELEVANT, InfoObjAddr, Normalize, OutputCircuitInfo, QccFreeze, QccRequest, QocQual, QosQual,
    QpmCategory, QualifierCountCall, QualifierOfCommand, QualifierOfInterrogation, QualifierOfParameterAct,
    QualifierOfParameterMv, QualifierOfResetProcessCmd, QualifierOfSetpointCmd, QualityDescriptor,
    QualityDescriptorProtection, SingleCommand, SingleEvent, SinglePoint, StartEvent, StatusAndStatusChangeDetection,
    StepCommand, StepPosition,
};
pub use mproc::{
    BinaryCounterReadingInfo, BitString32Info, DoublePointInfo, EventOfProtectionEquipmentInfo,
    MeasuredValueFloatInfo, MeasuredValueNormalInfo, MeasuredValueScaledInfo, PackedOutputCircuitInfoInfo,
    PackedSinglePointWithScdInfo, PackedStartEventsOfProtectionEquipmentInfo, SinglePointInfo,
    StepPositionInfo,
};
pub use params::{PARAMS_NARROW, PARAMS_STANDARD_101, PARAMS_STANDARD_104, PARAMS_WIDE, Params, TimeZone, UtcOffset};
pub use time::{CalendarTime, TimeTagFlags, Timestamp};
