use vstd::prelude::*;

verus! {

/// The value type that the catalog declares for an element.
#[derive(Debug, Clone, Copy, PartialEq, Eq, Structural)]
pub enum Type {
    Unsigned,
    Signed,
    Float,
    String,
    Utf8,
    Date,
    Master,
    Binary,
}

/// An element identifier: one of the catalog's known elements, an identifier
/// that the catalog does not know (with its wire value), or the marker of a
/// corrupted region.
#[derive(Debug, Clone, Copy, PartialEq, Eq, Structural)]
pub enum Id {
    Unknown(u32),
    Corrupted,
    Ebml,
    EbmlVersion,
    EbmlReadVersion,
    EbmlMaxIdLength,
    EbmlMaxSizeLength,
    DocType,
    DocTypeVersion,
    DocTypeReadVersion,
    Void,
    Crc32,
    Segment,
    SeekHead,
    Seek,
    SeekId,
    SeekPosition,
    Info,
    TimecodeScale,
    Duration,
    DateUtc,
    Title,
    MuxingApp,
    WritingApp,
    Cluster,
    Timecode,
    PrevSize,
    SimpleBlock,
    BlockGroup,
    Block,
    BlockVirtual,
    BlockAdditions,
    BlockMore,
    BlockAddId,
    BlockAdditional,
    BlockDuration,
    ReferenceBlock,
    DiscardPadding,
    Slices,
    TimeSlice,
    LaceNumber,
    Tracks,
    TrackEntry,
    TrackNumber,
    TrackUid,
    TrackType,
    FlagEnabled,
    FlagDefault,
    FlagForced,
    FlagLacing,
    DefaultDuration,
    Name,
    Language,
    CodecId,
    CodecPrivate,
    CodecName,
    CodecDelay,
    SeekPreRoll,
    Video,
    FlagInterlaced,
    StereoMode,
    AlphaMode,
    PixelWidth,
    PixelHeight,
    PixelCropBottom,
    PixelCropTop,
    PixelCropLeft,
    PixelCropRight,
    DisplayWidth,
    DisplayHeight,
    DisplayUnit,
    AspectRatioType,
    FrameRate,
    Colour,
    MatrixCoefficients,
    BitsPerChannel,
    ChromaSubsamplingHorz,
    ChromaSubsamplingVert,
    CbSubsamplingHorz,
    CbSubsamplingVert,
    ChromaSitingHorz,
    ChromaSitingVert,
    Range,
    TransferCharacteristics,
    Primaries,
    MaxCll,
    MaxFall,
    MasteringMetadata,
    PrimaryRChromaticityX,
    PrimaryRChromaticityY,
    PrimaryGChromaticityX,
    PrimaryGChromaticityY,
    PrimaryBChromaticityX,
    PrimaryBChromaticityY,
    WhitePointChromaticityX,
    WhitePointChromaticityY,
    LuminanceMax,
    LuminanceMin,
    Projection,
    ProjectionType,
    ProjectionPrivate,
    ProjectionPoseYaw,
    ProjectionPosePitch,
    ProjectionPoseRoll,
    Audio,
    SamplingFrequency,
    OutputSamplingFrequency,
    Channels,
    BitDepth,
    ContentEncodings,
    ContentEncoding,
    ContentEncodingOrder,
    ContentEncodingScope,
    ContentEncodingType,
    ContentEncryption,
    ContentEncAlgo,
    ContentEncKeyId,
    ContentEncAesSettings,
    AesSettingsCipherMode,
    Cues,
    CuePoint,
    CueTime,
    CueTrackPositions,
    CueTrack,
    CueClusterPosition,
    CueRelativePosition,
    CueDuration,
    CueBlockNumber,
    Chapters,
    EditionEntry,
    ChapterAtom,
    ChapterUid,
    ChapterStringUid,
    ChapterTimeStart,
    ChapterTimeEnd,
    ChapterDisplay,
    ChapString,
    ChapLanguage,
    ChapCountry,
    Tags,
    Tag,
    Targets,
    TargetTypeValue,
    TargetType,
    TagTrackUid,
    SimpleTag,
    TagName,
    TagLanguage,
    TagDefault,
    TagString,
    TagBinary,
    Attachments,
    AttachedFile,
    FileDescription,
    FileName,
    FileMimeType,
    FileData,
    FileUid,
    ContentCompression,
    ContentCompAlgo,
    ContentCompSettings,
    EditionUid,
    EditionFlagHidden,
    EditionFlagDefault,
    ChapterFlagHidden,
    ChapterFlagEnabled,
    TagChapterUid,
    TagEditionUid,
    TagAttachmentUid,
}

/// The catalog entry of the identifier whose wire value is `value`.
pub open spec fn id_of_wire(value: u32) -> Id {
    match value {
        0x1A45DFA3 => Id::Ebml,
        0x4286 => Id::EbmlVersion,
        0x42F7 => Id::EbmlReadVersion,
        0x42F2 => Id::EbmlMaxIdLength,
        0x42F3 => Id::EbmlMaxSizeLength,
        0x4282 => Id::DocType,
        0x4287 => Id::DocTypeVersion,
        0x4285 => Id::DocTypeReadVersion,
        0xEC => Id::Void,
        0xBF => Id::Crc32,
        0x18538067 => Id::Segment,
        0x114D9B74 => Id::SeekHead,
        0x4DBB => Id::Seek,
        0x53AB => Id::SeekId,
        0x53AC => Id::SeekPosition,
        0x1549A966 => Id::Info,
        0x2AD7B1 => Id::TimecodeScale,
        0x4489 => Id::Duration,
        0x4461 => Id::DateUtc,
        0x7BA9 => Id::Title,
        0x4D80 => Id::MuxingApp,
        0x5741 => Id::WritingApp,
        0x1F43B675 => Id::Cluster,
        0xE7 => Id::Timecode,
        0xAB => Id::PrevSize,
        0xA3 => Id::SimpleBlock,
        0xA0 => Id::BlockGroup,
        0xA1 => Id::Block,
        0xA2 => Id::BlockVirtual,
        0x75A1 => Id::BlockAdditions,
        0xA6 => Id::BlockMore,
        0xEE => Id::BlockAddId,
        0xA5 => Id::BlockAdditional,
        0x9B => Id::BlockDuration,
        0xFB => Id::ReferenceBlock,
        0x75A2 => Id::DiscardPadding,
        0x8E => Id::Slices,
        0xE8 => Id::TimeSlice,
        0xCC => Id::LaceNumber,
        0x1654AE6B => Id::Tracks,
        0xAE => Id::TrackEntry,
        0xD7 => Id::TrackNumber,
        0x73C5 => Id::TrackUid,
        0x83 => Id::TrackType,
        0xB9 => Id::FlagEnabled,
        0x88 => Id::FlagDefault,
        0x55AA => Id::FlagForced,
        0x9C => Id::FlagLacing,
        0x23E383 => Id::DefaultDuration,
        0x536E => Id::Name,
        0x22B59C => Id::Language,
        0x86 => Id::CodecId,
        0x63A2 => Id::CodecPrivate,
        0x258688 => Id::CodecName,
        0x56AA => Id::CodecDelay,
        0x56BB => Id::SeekPreRoll,
        0xE0 => Id::Video,
        0x9A => Id::FlagInterlaced,
        0x53B8 => Id::StereoMode,
        0x53C0 => Id::AlphaMode,
        0xB0 => Id::PixelWidth,
        0xBA => Id::PixelHeight,
        0x54AA => Id::PixelCropBottom,
        0x54BB => Id::PixelCropTop,
        0x54CC => Id::PixelCropLeft,
        0x54DD => Id::PixelCropRight,
        0x54B0 => Id::DisplayWidth,
        0x54BA => Id::DisplayHeight,
        0x54B2 => Id::DisplayUnit,
        0x54B3 => Id::AspectRatioType,
        0x2383E3 => Id::FrameRate,
        0x55B0 => Id::Colour,
        0x55B1 => Id::MatrixCoefficients,
        0x55B2 => Id::BitsPerChannel,
        0x55B3 => Id::ChromaSubsamplingHorz,
        0x55B4 => Id::ChromaSubsamplingVert,
        0x55B5 => Id::CbSubsamplingHorz,
        0x55B6 => Id::CbSubsamplingVert,
        0x55B7 => Id::ChromaSitingHorz,
        0x55B8 => Id::ChromaSitingVert,
        0x55B9 => Id::Range,
        0x55BA => Id::TransferCharacteristics,
        0x55BB => Id::Primaries,
        0x55BC => Id::MaxCll,
        0x55BD => Id::MaxFall,
        0x55D0 => Id::MasteringMetadata,
        0x55D1 => Id::PrimaryRChromaticityX,
        0x55D2 => Id::PrimaryRChromaticityY,
        0x55D3 => Id::PrimaryGChromaticityX,
        0x55D4 => Id::PrimaryGChromaticityY,
        0x55D5 => Id::PrimaryBChromaticityX,
        0x55D6 => Id::PrimaryBChromaticityY,
        0x55D7 => Id::WhitePointChromaticityX,
        0x55D8 => Id::WhitePointChromaticityY,
        0x55D9 => Id::LuminanceMax,
        0x55DA => Id::LuminanceMin,
        0x7670 => Id::Projection,
        0x7671 => Id::ProjectionType,
        0x7672 => Id::ProjectionPrivate,
        0x7673 => Id::ProjectionPoseYaw,
        0x7674 => Id::ProjectionPosePitch,
        0x7675 => Id::ProjectionPoseRoll,
        0xE1 => Id::Audio,
        0xB5 => Id::SamplingFrequency,
        0x78B5 => Id::OutputSamplingFrequency,
        0x9F => Id::Channels,
        0x6264 => Id::BitDepth,
        0x6D80 => Id::ContentEncodings,
        0x6240 => Id::ContentEncoding,
        0x5031 => Id::ContentEncodingOrder,
        0x5032 => Id::ContentEncodingScope,
        0x5033 => Id::ContentEncodingType,
        0x5035 => Id::ContentEncryption,
        0x47E1 => Id::ContentEncAlgo,
        0x47E2 => Id::ContentEncKeyId,
        0x47E7 => Id::ContentEncAesSettings,
        0x47E8 => Id::AesSettingsCipherMode,
        0x1C53BB6B => Id::Cues,
        0xBB => Id::CuePoint,
        0xB3 => Id::CueTime,
        0xB7 => Id::CueTrackPositions,
        0xF7 => Id::CueTrack,
        0xF1 => Id::CueClusterPosition,
        0xF0 => Id::CueRelativePosition,
        0xB2 => Id::CueDuration,
        0x5378 => Id::CueBlockNumber,
        0x1043A770 => Id::Chapters,
        0x45B9 => Id::EditionEntry,
        0xB6 => Id::ChapterAtom,
        0x73C4 => Id::ChapterUid,
        0x5654 => Id::ChapterStringUid,
        0x91 => Id::ChapterTimeStart,
        0x92 => Id::ChapterTimeEnd,
        0x80 => Id::ChapterDisplay,
        0x85 => Id::ChapString,
        0x437C => Id::ChapLanguage,
        0x437E => Id::ChapCountry,
        0x1254C367 => Id::Tags,
        0x7373 => Id::Tag,
        0x63C0 => Id::Targets,
        0x68CA => Id::TargetTypeValue,
        0x63CA => Id::TargetType,
        0x63C5 => Id::TagTrackUid,
        0x67C8 => Id::SimpleTag,
        0x45A3 => Id::TagName,
        0x447A => Id::TagLanguage,
        0x4484 => Id::TagDefault,
        0x4487 => Id::TagString,
        0x4485 => Id::TagBinary,
        0x1941A469 => Id::Attachments,
        0x61A7 => Id::AttachedFile,
        0x467E => Id::FileDescription,
        0x466E => Id::FileName,
        0x4660 => Id::FileMimeType,
        0x465C => Id::FileData,
        0x46AE => Id::FileUid,
        0x5034 => Id::ContentCompression,
        0x4254 => Id::ContentCompAlgo,
        0x4255 => Id::ContentCompSettings,
        0x45BC => Id::EditionUid,
        0x45BD => Id::EditionFlagHidden,
        0x45DB => Id::EditionFlagDefault,
        0x98 => Id::ChapterFlagHidden,
        0x4598 => Id::ChapterFlagEnabled,
        0x63C4 => Id::TagChapterUid,
        0x63C9 => Id::TagEditionUid,
        0x63C6 => Id::TagAttachmentUid,
        _ => Id::Unknown(value),
    }
}

impl Id {
    /// The wire value of an identifier; the corrupted marker has none.
    pub open spec fn wire_value(self) -> Option<u32> {
        match self {
            Id::Unknown(v) => Some(v),
            Id::Corrupted => None,
            Id::Ebml => Some(0x1A45DFA3),
            Id::EbmlVersion => Some(0x4286),
            Id::EbmlReadVersion => Some(0x42F7),
            Id::EbmlMaxIdLength => Some(0x42F2),
            Id::EbmlMaxSizeLength => Some(0x42F3),
            Id::DocType => Some(0x4282),
            Id::DocTypeVersion => Some(0x4287),
            Id::DocTypeReadVersion => Some(0x4285),
            Id::Void => Some(0xEC),
            Id::Crc32 => Some(0xBF),
            Id::Segment => Some(0x18538067),
            Id::SeekHead => Some(0x114D9B74),
            Id::Seek => Some(0x4DBB),
            Id::SeekId => Some(0x53AB),
            Id::SeekPosition => Some(0x53AC),
            Id::Info => Some(0x1549A966),
            Id::TimecodeScale => Some(0x2AD7B1),
            Id::Duration => Some(0x4489),
            Id::DateUtc => Some(0x4461),
            Id::Title => Some(0x7BA9),
            Id::MuxingApp => Some(0x4D80),
            Id::WritingApp => Some(0x5741),
            Id::Cluster => Some(0x1F43B675),
            Id::Timecode => Some(0xE7),
            Id::PrevSize => Some(0xAB),
            Id::SimpleBlock => Some(0xA3),
            Id::BlockGroup => Some(0xA0),
            Id::Block => Some(0xA1),
            Id::BlockVirtual => Some(0xA2),
            Id::BlockAdditions => Some(0x75A1),
            Id::BlockMore => Some(0xA6),
            Id::BlockAddId => Some(0xEE),
            Id::BlockAdditional => Some(0xA5),
            Id::BlockDuration => Some(0x9B),
            Id::ReferenceBlock => Some(0xFB),
            Id::DiscardPadding => Some(0x75A2),
            Id::Slices => Some(0x8E),
            Id::TimeSlice => Some(0xE8),
            Id::LaceNumber => Some(0xCC),
            Id::Tracks => Some(0x1654AE6B),
            Id::TrackEntry => Some(0xAE),
            Id::TrackNumber => Some(0xD7),
            Id::TrackUid => Some(0x73C5),
            Id::TrackType => Some(0x83),
            Id::FlagEnabled => Some(0xB9),
            Id::FlagDefault => Some(0x88),
            Id::FlagForced => Some(0x55AA),
            Id::FlagLacing => Some(0x9C),
            Id::DefaultDuration => Some(0x23E383),
            Id::Name => Some(0x536E),
            Id::Language => Some(0x22B59C),
            Id::CodecId => Some(0x86),
            Id::CodecPrivate => Some(0x63A2),
            Id::CodecName => Some(0x258688),
            Id::CodecDelay => Some(0x56AA),
            Id::SeekPreRoll => Some(0x56BB),
            Id::Video => Some(0xE0),
            Id::FlagInterlaced => Some(0x9A),
            Id::StereoMode => Some(0x53B8),
            Id::AlphaMode => Some(0x53C0),
            Id::PixelWidth => Some(0xB0),
            Id::PixelHeight => Some(0xBA),
            Id::PixelCropBottom => Some(0x54AA),
            Id::PixelCropTop => Some(0x54BB),
            Id::PixelCropLeft => Some(0x54CC),
            Id::PixelCropRight => Some(0x54DD),
            Id::DisplayWidth => Some(0x54B0),
            Id::DisplayHeight => Some(0x54BA),
            Id::DisplayUnit => Some(0x54B2),
            Id::AspectRatioType => Some(0x54B3),
            Id::FrameRate => Some(0x2383E3),
            Id::Colour => Some(0x55B0),
            Id::MatrixCoefficients => Some(0x55B1),
            Id::BitsPerChannel => Some(0x55B2),
            Id::ChromaSubsamplingHorz => Some(0x55B3),
            Id::ChromaSubsamplingVert => Some(0x55B4),
            Id::CbSubsamplingHorz => Some(0x55B5),
            Id::CbSubsamplingVert => Some(0x55B6),
            Id::ChromaSitingHorz => Some(0x55B7),
            Id::ChromaSitingVert => Some(0x55B8),
            Id::Range => Some(0x55B9),
            Id::TransferCharacteristics => Some(0x55BA),
            Id::Primaries => Some(0x55BB),
            Id::MaxCll => Some(0x55BC),
            Id::MaxFall => Some(0x55BD),
            Id::MasteringMetadata => Some(0x55D0),
            Id::PrimaryRChromaticityX => Some(0x55D1),
            Id::PrimaryRChromaticityY => Some(0x55D2),
            Id::PrimaryGChromaticityX => Some(0x55D3),
            Id::PrimaryGChromaticityY => Some(0x55D4),
            Id::PrimaryBChromaticityX => Some(0x55D5),
            Id::PrimaryBChromaticityY => Some(0x55D6),
            Id::WhitePointChromaticityX => Some(0x55D7),
            Id::WhitePointChromaticityY => Some(0x55D8),
            Id::LuminanceMax => Some(0x55D9),
            Id::LuminanceMin => Some(0x55DA),
            Id::Projection => Some(0x7670),
            Id::ProjectionType => Some(0x7671),
            Id::ProjectionPrivate => Some(0x7672),
            Id::ProjectionPoseYaw => Some(0x7673),
            Id::ProjectionPosePitch => Some(0x7674),
            Id::ProjectionPoseRoll => Some(0x7675),
            Id::Audio => Some(0xE1),
            Id::SamplingFrequency => Some(0xB5),
            Id::OutputSamplingFrequency => Some(0x78B5),
            Id::Channels => Some(0x9F),
            Id::BitDepth => Some(0x6264),
            Id::ContentEncodings => Some(0x6D80),
            Id::ContentEncoding => Some(0x6240),
            Id::ContentEncodingOrder => Some(0x5031),
            Id::ContentEncodingScope => Some(0x5032),
            Id::ContentEncodingType => Some(0x5033),
            Id::ContentEncryption => Some(0x5035),
            Id::ContentEncAlgo => Some(0x47E1),
            Id::ContentEncKeyId => Some(0x47E2),
            Id::ContentEncAesSettings => Some(0x47E7),
            Id::AesSettingsCipherMode => Some(0x47E8),
            Id::Cues => Some(0x1C53BB6B),
            Id::CuePoint => Some(0xBB),
            Id::CueTime => Some(0xB3),
            Id::CueTrackPositions => Some(0xB7),
            Id::CueTrack => Some(0xF7),
            Id::CueClusterPosition => Some(0xF1),
            Id::CueRelativePosition => Some(0xF0),
            Id::CueDuration => Some(0xB2),
            Id::CueBlockNumber => Some(0x5378),
            Id::Chapters => Some(0x1043A770),
            Id::EditionEntry => Some(0x45B9),
            Id::ChapterAtom => Some(0xB6),
            Id::ChapterUid => Some(0x73C4),
            Id::ChapterStringUid => Some(0x5654),
            Id::ChapterTimeStart => Some(0x91),
            Id::ChapterTimeEnd => Some(0x92),
            Id::ChapterDisplay => Some(0x80),
            Id::ChapString => Some(0x85),
            Id::ChapLanguage => Some(0x437C),
            Id::ChapCountry => Some(0x437E),
            Id::Tags => Some(0x1254C367),
            Id::Tag => Some(0x7373),
            Id::Targets => Some(0x63C0),
            Id::TargetTypeValue => Some(0x68CA),
            Id::TargetType => Some(0x63CA),
            Id::TagTrackUid => Some(0x63C5),
            Id::SimpleTag => Some(0x67C8),
            Id::TagName => Some(0x45A3),
            Id::TagLanguage => Some(0x447A),
            Id::TagDefault => Some(0x4484),
            Id::TagString => Some(0x4487),
            Id::TagBinary => Some(0x4485),
            Id::Attachments => Some(0x1941A469),
            Id::AttachedFile => Some(0x61A7),
            Id::FileDescription => Some(0x467E),
            Id::FileName => Some(0x466E),
            Id::FileMimeType => Some(0x4660),
            Id::FileData => Some(0x465C),
            Id::FileUid => Some(0x46AE),
            Id::ContentCompression => Some(0x5034),
            Id::ContentCompAlgo => Some(0x4254),
            Id::ContentCompSettings => Some(0x4255),
            Id::EditionUid => Some(0x45BC),
            Id::EditionFlagHidden => Some(0x45BD),
            Id::EditionFlagDefault => Some(0x45DB),
            Id::ChapterFlagHidden => Some(0x98),
            Id::ChapterFlagEnabled => Some(0x4598),
            Id::TagChapterUid => Some(0x63C4),
            Id::TagEditionUid => Some(0x63C9),
            Id::TagAttachmentUid => Some(0x63C6),
        }
    }

    /// The value type of an identifier; unknown and corrupted ones are binary.
    pub open spec fn value_type(self) -> Type {
        match self {
            Id::Unknown(_) => Type::Binary,
            Id::Corrupted => Type::Binary,
            Id::Ebml => Type::Master,
            Id::EbmlVersion => Type::Unsigned,
            Id::EbmlReadVersion => Type::Unsigned,
            Id::EbmlMaxIdLength => Type::Unsigned,
            Id::EbmlMaxSizeLength => Type::Unsigned,
            Id::DocType => Type::String,
            Id::DocTypeVersion => Type::Unsigned,
            Id::DocTypeReadVersion => Type::Unsigned,
            Id::Void => Type::Binary,
            Id::Crc32 => Type::Binary,
            Id::Segment => Type::Master,
            Id::SeekHead => Type::Master,
            Id::Seek => Type::Master,
            Id::SeekId => Type::Binary,
            Id::SeekPosition => Type::Unsigned,
            Id::Info => Type::Master,
            Id::TimecodeScale => Type::Unsigned,
            Id::Duration => Type::Float,
            Id::DateUtc => Type::Date,
            Id::Title => Type::Utf8,
            Id::MuxingApp => Type::Utf8,
            Id::WritingApp => Type::Utf8,
            Id::Cluster => Type::Master,
            Id::Timecode => Type::Unsigned,
            Id::PrevSize => Type::Unsigned,
            Id::SimpleBlock => Type::Binary,
            Id::BlockGroup => Type::Master,
            Id::Block => Type::Binary,
            Id::BlockVirtual => Type::Binary,
            Id::BlockAdditions => Type::Master,
            Id::BlockMore => Type::Master,
            Id::BlockAddId => Type::Unsigned,
            Id::BlockAdditional => Type::Binary,
            Id::BlockDuration => Type::Unsigned,
            Id::ReferenceBlock => Type::Signed,
            Id::DiscardPadding => Type::Signed,
            Id::Slices => Type::Master,
            Id::TimeSlice => Type::Master,
            Id::LaceNumber => Type::Unsigned,
            Id::Tracks => Type::Master,
            Id::TrackEntry => Type::Master,
            Id::TrackNumber => Type::Unsigned,
            Id::TrackUid => Type::Unsigned,
            Id::TrackType => Type::Unsigned,
            Id::FlagEnabled => Type::Unsigned,
            Id::FlagDefault => Type::Unsigned,
            Id::FlagForced => Type::Unsigned,
            Id::FlagLacing => Type::Unsigned,
            Id::DefaultDuration => Type::Unsigned,
            Id::Name => Type::Utf8,
            Id::Language => Type::String,
            Id::CodecId => Type::String,
            Id::CodecPrivate => Type::Binary,
            Id::CodecName => Type::Utf8,
            Id::CodecDelay => Type::Unsigned,
            Id::SeekPreRoll => Type::Unsigned,
            Id::Video => Type::Master,
            Id::FlagInterlaced => Type::Unsigned,
            Id::StereoMode => Type::Unsigned,
            Id::AlphaMode => Type::Unsigned,
            Id::PixelWidth => Type::Unsigned,
            Id::PixelHeight => Type::Unsigned,
            Id::PixelCropBottom => Type::Unsigned,
            Id::PixelCropTop => Type::Unsigned,
            Id::PixelCropLeft => Type::Unsigned,
            Id::PixelCropRight => Type::Unsigned,
            Id::DisplayWidth => Type::Unsigned,
            Id::DisplayHeight => Type::Unsigned,
            Id::DisplayUnit => Type::Unsigned,
            Id::AspectRatioType => Type::Unsigned,
            Id::FrameRate => Type::Float,
            Id::Colour => Type::Master,
            Id::MatrixCoefficients => Type::Unsigned,
            Id::BitsPerChannel => Type::Unsigned,
            Id::ChromaSubsamplingHorz => Type::Unsigned,
            Id::ChromaSubsamplingVert => Type::Unsigned,
            Id::CbSubsamplingHorz => Type::Unsigned,
            Id::CbSubsamplingVert => Type::Unsigned,
            Id::ChromaSitingHorz => Type::Unsigned,
            Id::ChromaSitingVert => Type::Unsigned,
            Id::Range => Type::Unsigned,
            Id::TransferCharacteristics => Type::Unsigned,
            Id::Primaries => Type::Unsigned,
            Id::MaxCll => Type::Unsigned,
            Id::MaxFall => Type::Unsigned,
            Id::MasteringMetadata => Type::Master,
            Id::PrimaryRChromaticityX => Type::Float,
            Id::PrimaryRChromaticityY => Type::Float,
            Id::PrimaryGChromaticityX => Type::Float,
            Id::PrimaryGChromaticityY => Type::Float,
            Id::PrimaryBChromaticityX => Type::Float,
            Id::PrimaryBChromaticityY => Type::Float,
            Id::WhitePointChromaticityX => Type::Float,
            Id::WhitePointChromaticityY => Type::Float,
            Id::LuminanceMax => Type::Float,
            Id::LuminanceMin => Type::Float,
            Id::Projection => Type::Master,
            Id::ProjectionType => Type::Unsigned,
            Id::ProjectionPrivate => Type::Binary,
            Id::ProjectionPoseYaw => Type::Float,
            Id::ProjectionPosePitch => Type::Float,
            Id::ProjectionPoseRoll => Type::Float,
            Id::Audio => Type::Master,
            Id::SamplingFrequency => Type::Float,
            Id::OutputSamplingFrequency => Type::Float,
            Id::Channels => Type::Unsigned,
            Id::BitDepth => Type::Unsigned,
            Id::ContentEncodings => Type::Master,
            Id::ContentEncoding => Type::Master,
            Id::ContentEncodingOrder => Type::Unsigned,
            Id::ContentEncodingScope => Type::Unsigned,
            Id::ContentEncodingType => Type::Unsigned,
            Id::ContentEncryption => Type::Master,
            Id::ContentEncAlgo => Type::Unsigned,
            Id::ContentEncKeyId => Type::Binary,
            Id::ContentEncAesSettings => Type::Master,
            Id::AesSettingsCipherMode => Type::Unsigned,
            Id::Cues => Type::Master,
            Id::CuePoint => Type::Master,
            Id::CueTime => Type::Unsigned,
            Id::CueTrackPositions => Type::Master,
            Id::CueTrack => Type::Unsigned,
            Id::CueClusterPosition => Type::Unsigned,
            Id::CueRelativePosition => Type::Unsigned,
            Id::CueDuration => Type::Unsigned,
            Id::CueBlockNumber => Type::Unsigned,
            Id::Chapters => Type::Master,
            Id::EditionEntry => Type::Master,
            Id::ChapterAtom => Type::Master,
            Id::ChapterUid => Type::Unsigned,
            Id::ChapterStringUid => Type::Utf8,
            Id::ChapterTimeStart => Type::Unsigned,
            Id::ChapterTimeEnd => Type::Unsigned,
            Id::ChapterDisplay => Type::Master,
            Id::ChapString => Type::Utf8,
            Id::ChapLanguage => Type::String,
            Id::ChapCountry => Type::String,
            Id::Tags => Type::Master,
            Id::Tag => Type::Master,
            Id::Targets => Type::Master,
            Id::TargetTypeValue => Type::Unsigned,
            Id::TargetType => Type::String,
            Id::TagTrackUid => Type::Unsigned,
            Id::SimpleTag => Type::Master,
            Id::TagName => Type::Utf8,
            Id::TagLanguage => Type::String,
            Id::TagDefault => Type::Unsigned,
            Id::TagString => Type::Utf8,
            Id::TagBinary => Type::Binary,
            Id::Attachments => Type::Master,
            Id::AttachedFile => Type::Master,
            Id::FileDescription => Type::Utf8,
            Id::FileName => Type::Utf8,
            Id::FileMimeType => Type::String,
            Id::FileData => Type::Binary,
            Id::FileUid => Type::Unsigned,
            Id::ContentCompression => Type::Master,
            Id::ContentCompAlgo => Type::Unsigned,
            Id::ContentCompSettings => Type::Binary,
            Id::EditionUid => Type::Unsigned,
            Id::EditionFlagHidden => Type::Unsigned,
            Id::EditionFlagDefault => Type::Unsigned,
            Id::ChapterFlagHidden => Type::Unsigned,
            Id::ChapterFlagEnabled => Type::Unsigned,
            Id::TagChapterUid => Type::Unsigned,
            Id::TagEditionUid => Type::Unsigned,
            Id::TagAttachmentUid => Type::Unsigned,
        }
    }

    /// The schema's name of a known identifier, with its casing.
    pub open spec fn schema_name(self) -> Option<Seq<char>> {
        match self {
            Id::Unknown(_) => None,
            Id::Corrupted => None,
            Id::Ebml => Some("EBML"@),
            Id::EbmlVersion => Some("EBMLVersion"@),
            Id::EbmlReadVersion => Some("EBMLReadVersion"@),
            Id::EbmlMaxIdLength => Some("EBMLMaxIDLength"@),
            Id::EbmlMaxSizeLength => Some("EBMLMaxSizeLength"@),
            Id::DocType => Some("DocType"@),
            Id::DocTypeVersion => Some("DocTypeVersion"@),
            Id::DocTypeReadVersion => Some("DocTypeReadVersion"@),
            Id::Void => Some("Void"@),
            Id::Crc32 => Some("CRC-32"@),
            Id::Segment => Some("Segment"@),
            Id::SeekHead => Some("SeekHead"@),
            Id::Seek => Some("Seek"@),
            Id::SeekId => Some("SeekID"@),
            Id::SeekPosition => Some("SeekPosition"@),
            Id::Info => Some("Info"@),
            Id::TimecodeScale => Some("TimecodeScale"@),
            Id::Duration => Some("Duration"@),
            Id::DateUtc => Some("DateUTC"@),
            Id::Title => Some("Title"@),
            Id::MuxingApp => Some("MuxingApp"@),
            Id::WritingApp => Some("WritingApp"@),
            Id::Cluster => Some("Cluster"@),
            Id::Timecode => Some("Timecode"@),
            Id::PrevSize => Some("PrevSize"@),
            Id::SimpleBlock => Some("SimpleBlock"@),
            Id::BlockGroup => Some("BlockGroup"@),
            Id::Block => Some("Block"@),
            Id::BlockVirtual => Some("BlockVirtual"@),
            Id::BlockAdditions => Some("BlockAdditions"@),
            Id::BlockMore => Some("BlockMore"@),
            Id::BlockAddId => Some("BlockAddID"@),
            Id::BlockAdditional => Some("BlockAdditional"@),
            Id::BlockDuration => Some("BlockDuration"@),
            Id::ReferenceBlock => Some("ReferenceBlock"@),
            Id::DiscardPadding => Some("DiscardPadding"@),
            Id::Slices => Some("Slices"@),
            Id::TimeSlice => Some("TimeSlice"@),
            Id::LaceNumber => Some("LaceNumber"@),
            Id::Tracks => Some("Tracks"@),
            Id::TrackEntry => Some("TrackEntry"@),
            Id::TrackNumber => Some("TrackNumber"@),
            Id::TrackUid => Some("TrackUID"@),
            Id::TrackType => Some("TrackType"@),
            Id::FlagEnabled => Some("FlagEnabled"@),
            Id::FlagDefault => Some("FlagDefault"@),
            Id::FlagForced => Some("FlagForced"@),
            Id::FlagLacing => Some("FlagLacing"@),
            Id::DefaultDuration => Some("DefaultDuration"@),
            Id::Name => Some("Name"@),
            Id::Language => Some("Language"@),
            Id::CodecId => Some("CodecID"@),
            Id::CodecPrivate => Some("CodecPrivate"@),
            Id::CodecName => Some("CodecName"@),
            Id::CodecDelay => Some("CodecDelay"@),
            Id::SeekPreRoll => Some("SeekPreRoll"@),
            Id::Video => Some("Video"@),
            Id::FlagInterlaced => Some("FlagInterlaced"@),
            Id::StereoMode => Some("StereoMode"@),
            Id::AlphaMode => Some("AlphaMode"@),
            Id::PixelWidth => Some("PixelWidth"@),
            Id::PixelHeight => Some("PixelHeight"@),
            Id::PixelCropBottom => Some("PixelCropBottom"@),
            Id::PixelCropTop => Some("PixelCropTop"@),
            Id::PixelCropLeft => Some("PixelCropLeft"@),
            Id::PixelCropRight => Some("PixelCropRight"@),
            Id::DisplayWidth => Some("DisplayWidth"@),
            Id::DisplayHeight => Some("DisplayHeight"@),
            Id::DisplayUnit => Some("DisplayUnit"@),
            Id::AspectRatioType => Some("AspectRatioType"@),
            Id::FrameRate => Some("FrameRate"@),
            Id::Colour => Some("Colour"@),
            Id::MatrixCoefficients => Some("MatrixCoefficients"@),
            Id::BitsPerChannel => Some("BitsPerChannel"@),
            Id::ChromaSubsamplingHorz => Some("ChromaSubsamplingHorz"@),
            Id::ChromaSubsamplingVert => Some("ChromaSubsamplingVert"@),
            Id::CbSubsamplingHorz => Some("CbSubsamplingHorz"@),
            Id::CbSubsamplingVert => Some("CbSubsamplingVert"@),
            Id::ChromaSitingHorz => Some("ChromaSitingHorz"@),
            Id::ChromaSitingVert => Some("ChromaSitingVert"@),
            Id::Range => Some("Range"@),
            Id::TransferCharacteristics => Some("TransferCharacteristics"@),
            Id::Primaries => Some("Primaries"@),
            Id::MaxCll => Some("MaxCLL"@),
            Id::MaxFall => Some("MaxFALL"@),
            Id::MasteringMetadata => Some("MasteringMetadata"@),
            Id::PrimaryRChromaticityX => Some("PrimaryRChromaticityX"@),
            Id::PrimaryRChromaticityY => Some("PrimaryRChromaticityY"@),
            Id::PrimaryGChromaticityX => Some("PrimaryGChromaticityX"@),
            Id::PrimaryGChromaticityY => Some("PrimaryGChromaticityY"@),
            Id::PrimaryBChromaticityX => Some("PrimaryBChromaticityX"@),
            Id::PrimaryBChromaticityY => Some("PrimaryBChromaticityY"@),
            Id::WhitePointChromaticityX => Some("WhitePointChromaticityX"@),
            Id::WhitePointChromaticityY => Some("WhitePointChromaticityY"@),
            Id::LuminanceMax => Some("LuminanceMax"@),
            Id::LuminanceMin => Some("LuminanceMin"@),
            Id::Projection => Some("Projection"@),
            Id::ProjectionType => Some("ProjectionType"@),
            Id::ProjectionPrivate => Some("ProjectionPrivate"@),
            Id::ProjectionPoseYaw => Some("ProjectionPoseYaw"@),
            Id::ProjectionPosePitch => Some("ProjectionPosePitch"@),
            Id::ProjectionPoseRoll => Some("ProjectionPoseRoll"@),
            Id::Audio => Some("Audio"@),
            Id::SamplingFrequency => Some("SamplingFrequency"@),
            Id::OutputSamplingFrequency => Some("OutputSamplingFrequency"@),
            Id::Channels => Some("Channels"@),
            Id::BitDepth => Some("BitDepth"@),
            Id::ContentEncodings => Some("ContentEncodings"@),
            Id::ContentEncoding => Some("ContentEncoding"@),
            Id::ContentEncodingOrder => Some("ContentEncodingOrder"@),
            Id::ContentEncodingScope => Some("ContentEncodingScope"@),
            Id::ContentEncodingType => Some("ContentEncodingType"@),
            Id::ContentEncryption => Some("ContentEncryption"@),
            Id::ContentEncAlgo => Some("ContentEncAlgo"@),
            Id::ContentEncKeyId => Some("ContentEncKeyID"@),
            Id::ContentEncAesSettings => Some("ContentEncAESSettings"@),
            Id::AesSettingsCipherMode => Some("AESSettingsCipherMode"@),
            Id::Cues => Some("Cues"@),
            Id::CuePoint => Some("CuePoint"@),
            Id::CueTime => Some("CueTime"@),
            Id::CueTrackPositions => Some("CueTrackPositions"@),
            Id::CueTrack => Some("CueTrack"@),
            Id::CueClusterPosition => Some("CueClusterPosition"@),
            Id::CueRelativePosition => Some("CueRelativePosition"@),
            Id::CueDuration => Some("CueDuration"@),
            Id::CueBlockNumber => Some("CueBlockNumber"@),
            Id::Chapters => Some("Chapters"@),
            Id::EditionEntry => Some("EditionEntry"@),
            Id::ChapterAtom => Some("ChapterAtom"@),
            Id::ChapterUid => Some("ChapterUID"@),
            Id::ChapterStringUid => Some("ChapterStringUID"@),
            Id::ChapterTimeStart => Some("ChapterTimeStart"@),
            Id::ChapterTimeEnd => Some("ChapterTimeEnd"@),
            Id::ChapterDisplay => Some("ChapterDisplay"@),
            Id::ChapString => Some("ChapString"@),
            Id::ChapLanguage => Some("ChapLanguage"@),
            Id::ChapCountry => Some("ChapCountry"@),
            Id::Tags => Some("Tags"@),
            Id::Tag => Some("Tag"@),
            Id::Targets => Some("Targets"@),
            Id::TargetTypeValue => Some("TargetTypeValue"@),
            Id::TargetType => Some("TargetType"@),
            Id::TagTrackUid => Some("TagTrackUID"@),
            Id::SimpleTag => Some("SimpleTag"@),
            Id::TagName => Some("TagName"@),
            Id::TagLanguage => Some("TagLanguage"@),
            Id::TagDefault => Some("TagDefault"@),
            Id::TagString => Some("TagString"@),
            Id::TagBinary => Some("TagBinary"@),
            Id::Attachments => Some("Attachments"@),
            Id::AttachedFile => Some("AttachedFile"@),
            Id::FileDescription => Some("FileDescription"@),
            Id::FileName => Some("FileName"@),
            Id::FileMimeType => Some("FileMimeType"@),
            Id::FileData => Some("FileData"@),
            Id::FileUid => Some("FileUID"@),
            Id::ContentCompression => Some("ContentCompression"@),
            Id::ContentCompAlgo => Some("ContentCompAlgo"@),
            Id::ContentCompSettings => Some("ContentCompSettings"@),
            Id::EditionUid => Some("EditionUID"@),
            Id::EditionFlagHidden => Some("EditionFlagHidden"@),
            Id::EditionFlagDefault => Some("EditionFlagDefault"@),
            Id::ChapterFlagHidden => Some("ChapterFlagHidden"@),
            Id::ChapterFlagEnabled => Some("ChapterFlagEnabled"@),
            Id::TagChapterUid => Some("TagChapterUID"@),
            Id::TagEditionUid => Some("TagEditionUID"@),
            Id::TagAttachmentUid => Some("TagAttachmentUID"@),
        }
    }

    /// Builds the identifier of a wire value: a catalog entry, or `Unknown`.
    pub fn new(id: u32) -> (r: Id)
        ensures
            r == id_of_wire(id),
    {
        match id {
            0x1A45DFA3 => Id::Ebml,
            0x4286 => Id::EbmlVersion,
            0x42F7 => Id::EbmlReadVersion,
            0x42F2 => Id::EbmlMaxIdLength,
            0x42F3 => Id::EbmlMaxSizeLength,
            0x4282 => Id::DocType,
            0x4287 => Id::DocTypeVersion,
            0x4285 => Id::DocTypeReadVersion,
            0xEC => Id::Void,
            0xBF => Id::Crc32,
            0x18538067 => Id::Segment,
            0x114D9B74 => Id::SeekHead,
            0x4DBB => Id::Seek,
            0x53AB => Id::SeekId,
            0x53AC => Id::SeekPosition,
            0x1549A966 => Id::Info,
            0x2AD7B1 => Id::TimecodeScale,
            0x4489 => Id::Duration,
            0x4461 => Id::DateUtc,
            0x7BA9 => Id::Title,
            0x4D80 => Id::MuxingApp,
            0x5741 => Id::WritingApp,
            0x1F43B675 => Id::Cluster,
            0xE7 => Id::Timecode,
            0xAB => Id::PrevSize,
            0xA3 => Id::SimpleBlock,
            0xA0 => Id::BlockGroup,
            0xA1 => Id::Block,
            0xA2 => Id::BlockVirtual,
            0x75A1 => Id::BlockAdditions,
            0xA6 => Id::BlockMore,
            0xEE => Id::BlockAddId,
            0xA5 => Id::BlockAdditional,
            0x9B => Id::BlockDuration,
            0xFB => Id::ReferenceBlock,
            0x75A2 => Id::DiscardPadding,
            0x8E => Id::Slices,
            0xE8 => Id::TimeSlice,
            0xCC => Id::LaceNumber,
            0x1654AE6B => Id::Tracks,
            0xAE => Id::TrackEntry,
            0xD7 => Id::TrackNumber,
            0x73C5 => Id::TrackUid,
            0x83 => Id::TrackType,
            0xB9 => Id::FlagEnabled,
            0x88 => Id::FlagDefault,
            0x55AA => Id::FlagForced,
            0x9C => Id::FlagLacing,
            0x23E383 => Id::DefaultDuration,
            0x536E => Id::Name,
            0x22B59C => Id::Language,
            0x86 => Id::CodecId,
            0x63A2 => Id::CodecPrivate,
            0x258688 => Id::CodecName,
            0x56AA => Id::CodecDelay,
            0x56BB => Id::SeekPreRoll,
            0xE0 => Id::Video,
            0x9A => Id::FlagInterlaced,
            0x53B8 => Id::StereoMode,
            0x53C0 => Id::AlphaMode,
            0xB0 => Id::PixelWidth,
            0xBA => Id::PixelHeight,
            0x54AA => Id::PixelCropBottom,
            0x54BB => Id::PixelCropTop,
            0x54CC => Id::PixelCropLeft,
            0x54DD => Id::PixelCropRight,
            0x54B0 => Id::DisplayWidth,
            0x54BA => Id::DisplayHeight,
            0x54B2 => Id::DisplayUnit,
            0x54B3 => Id::AspectRatioType,
            0x2383E3 => Id::FrameRate,
            0x55B0 => Id::Colour,
            0x55B1 => Id::MatrixCoefficients,
            0x55B2 => Id::BitsPerChannel,
            0x55B3 => Id::ChromaSubsamplingHorz,
            0x55B4 => Id::ChromaSubsamplingVert,
            0x55B5 => Id::CbSubsamplingHorz,
            0x55B6 => Id::CbSubsamplingVert,
            0x55B7 => Id::ChromaSitingHorz,
            0x55B8 => Id::ChromaSitingVert,
            0x55B9 => Id::Range,
            0x55BA => Id::TransferCharacteristics,
            0x55BB => Id::Primaries,
            0x55BC => Id::MaxCll,
            0x55BD => Id::MaxFall,
            0x55D0 => Id::MasteringMetadata,
            0x55D1 => Id::PrimaryRChromaticityX,
            0x55D2 => Id::PrimaryRChromaticityY,
            0x55D3 => Id::PrimaryGChromaticityX,
            0x55D4 => Id::PrimaryGChromaticityY,
            0x55D5 => Id::PrimaryBChromaticityX,
            0x55D6 => Id::PrimaryBChromaticityY,
            0x55D7 => Id::WhitePointChromaticityX,
            0x55D8 => Id::WhitePointChromaticityY,
            0x55D9 => Id::LuminanceMax,
            0x55DA => Id::LuminanceMin,
            0x7670 => Id::Projection,
            0x7671 => Id::ProjectionType,
            0x7672 => Id::ProjectionPrivate,
            0x7673 => Id::ProjectionPoseYaw,
            0x7674 => Id::ProjectionPosePitch,
            0x7675 => Id::ProjectionPoseRoll,
            0xE1 => Id::Audio,
            0xB5 => Id::SamplingFrequency,
            0x78B5 => Id::OutputSamplingFrequency,
            0x9F => Id::Channels,
            0x6264 => Id::BitDepth,
            0x6D80 => Id::ContentEncodings,
            0x6240 => Id::ContentEncoding,
            0x5031 => Id::ContentEncodingOrder,
            0x5032 => Id::ContentEncodingScope,
            0x5033 => Id::ContentEncodingType,
            0x5035 => Id::ContentEncryption,
            0x47E1 => Id::ContentEncAlgo,
            0x47E2 => Id::ContentEncKeyId,
            0x47E7 => Id::ContentEncAesSettings,
            0x47E8 => Id::AesSettingsCipherMode,
            0x1C53BB6B => Id::Cues,
            0xBB => Id::CuePoint,
            0xB3 => Id::CueTime,
            0xB7 => Id::CueTrackPositions,
            0xF7 => Id::CueTrack,
            0xF1 => Id::CueClusterPosition,
            0xF0 => Id::CueRelativePosition,
            0xB2 => Id::CueDuration,
            0x5378 => Id::CueBlockNumber,
            0x1043A770 => Id::Chapters,
            0x45B9 => Id::EditionEntry,
            0xB6 => Id::ChapterAtom,
            0x73C4 => Id::ChapterUid,
            0x5654 => Id::ChapterStringUid,
            0x91 => Id::ChapterTimeStart,
            0x92 => Id::ChapterTimeEnd,
            0x80 => Id::ChapterDisplay,
            0x85 => Id::ChapString,
            0x437C => Id::ChapLanguage,
            0x437E => Id::ChapCountry,
            0x1254C367 => Id::Tags,
            0x7373 => Id::Tag,
            0x63C0 => Id::Targets,
            0x68CA => Id::TargetTypeValue,
            0x63CA => Id::TargetType,
            0x63C5 => Id::TagTrackUid,
            0x67C8 => Id::SimpleTag,
            0x45A3 => Id::TagName,
            0x447A => Id::TagLanguage,
            0x4484 => Id::TagDefault,
            0x4487 => Id::TagString,
            0x4485 => Id::TagBinary,
            0x1941A469 => Id::Attachments,
            0x61A7 => Id::AttachedFile,
            0x467E => Id::FileDescription,
            0x466E => Id::FileName,
            0x4660 => Id::FileMimeType,
            0x465C => Id::FileData,
            0x46AE => Id::FileUid,
            0x5034 => Id::ContentCompression,
            0x4254 => Id::ContentCompAlgo,
            0x4255 => Id::ContentCompSettings,
            0x45BC => Id::EditionUid,
            0x45BD => Id::EditionFlagHidden,
            0x45DB => Id::EditionFlagDefault,
            0x98 => Id::ChapterFlagHidden,
            0x4598 => Id::ChapterFlagEnabled,
            0x63C4 => Id::TagChapterUid,
            0x63C9 => Id::TagEditionUid,
            0x63C6 => Id::TagAttachmentUid,
            _ => Id::Unknown(id),
        }
    }

    /// The marker of a corrupted region.
    pub fn corrupted() -> (r: Id)
        ensures
            r == Id::Corrupted,
    {
        Id::Corrupted
    }

    /// The value type of this identifier.
    pub fn get_type(&self) -> (r: Type)
        ensures
            r == self.value_type(),
    {
        match self {
            Id::Unknown(_) => Type::Binary,
            Id::Corrupted => Type::Binary,
            Id::Ebml => Type::Master,
            Id::EbmlVersion => Type::Unsigned,
            Id::EbmlReadVersion => Type::Unsigned,
            Id::EbmlMaxIdLength => Type::Unsigned,
            Id::EbmlMaxSizeLength => Type::Unsigned,
            Id::DocType => Type::String,
            Id::DocTypeVersion => Type::Unsigned,
            Id::DocTypeReadVersion => Type::Unsigned,
            Id::Void => Type::Binary,
            Id::Crc32 => Type::Binary,
            Id::Segment => Type::Master,
            Id::SeekHead => Type::Master,
            Id::Seek => Type::Master,
            Id::SeekId => Type::Binary,
            Id::SeekPosition => Type::Unsigned,
            Id::Info => Type::Master,
            Id::TimecodeScale => Type::Unsigned,
            Id::Duration => Type::Float,
            Id::DateUtc => Type::Date,
            Id::Title => Type::Utf8,
            Id::MuxingApp => Type::Utf8,
            Id::WritingApp => Type::Utf8,
            Id::Cluster => Type::Master,
            Id::Timecode => Type::Unsigned,
            Id::PrevSize => Type::Unsigned,
            Id::SimpleBlock => Type::Binary,
            Id::BlockGroup => Type::Master,
            Id::Block => Type::Binary,
            Id::BlockVirtual => Type::Binary,
            Id::BlockAdditions => Type::Master,
            Id::BlockMore => Type::Master,
            Id::BlockAddId => Type::Unsigned,
            Id::BlockAdditional => Type::Binary,
            Id::BlockDuration => Type::Unsigned,
            Id::ReferenceBlock => Type::Signed,
            Id::DiscardPadding => Type::Signed,
            Id::Slices => Type::Master,
            Id::TimeSlice => Type::Master,
            Id::LaceNumber => Type::Unsigned,
            Id::Tracks => Type::Master,
            Id::TrackEntry => Type::Master,
            Id::TrackNumber => Type::Unsigned,
            Id::TrackUid => Type::Unsigned,
            Id::TrackType => Type::Unsigned,
            Id::FlagEnabled => Type::Unsigned,
            Id::FlagDefault => Type::Unsigned,
            Id::FlagForced => Type::Unsigned,
            Id::FlagLacing => Type::Unsigned,
            Id::DefaultDuration => Type::Unsigned,
            Id::Name => Type::Utf8,
            Id::Language => Type::String,
            Id::CodecId => Type::String,
            Id::CodecPrivate => Type::Binary,
            Id::CodecName => Type::Utf8,
            Id::CodecDelay => Type::Unsigned,
            Id::SeekPreRoll => Type::Unsigned,
            Id::Video => Type::Master,
            Id::FlagInterlaced => Type::Unsigned,
            Id::StereoMode => Type::Unsigned,
            Id::AlphaMode => Type::Unsigned,
            Id::PixelWidth => Type::Unsigned,
            Id::PixelHeight => Type::Unsigned,
            Id::PixelCropBottom => Type::Unsigned,
            Id::PixelCropTop => Type::Unsigned,
            Id::PixelCropLeft => Type::Unsigned,
            Id::PixelCropRight => Type::Unsigned,
            Id::DisplayWidth => Type::Unsigned,
            Id::DisplayHeight => Type::Unsigned,
            Id::DisplayUnit => Type::Unsigned,
            Id::AspectRatioType => Type::Unsigned,
            Id::FrameRate => Type::Float,
            Id::Colour => Type::Master,
            Id::MatrixCoefficients => Type::Unsigned,
            Id::BitsPerChannel => Type::Unsigned,
            Id::ChromaSubsamplingHorz => Type::Unsigned,
            Id::ChromaSubsamplingVert => Type::Unsigned,
            Id::CbSubsamplingHorz => Type::Unsigned,
            Id::CbSubsamplingVert => Type::Unsigned,
            Id::ChromaSitingHorz => Type::Unsigned,
            Id::ChromaSitingVert => Type::Unsigned,
            Id::Range => Type::Unsigned,
            Id::TransferCharacteristics => Type::Unsigned,
            Id::Primaries => Type::Unsigned,
            Id::MaxCll => Type::Unsigned,
            Id::MaxFall => Type::Unsigned,
            Id::MasteringMetadata => Type::Master,
            Id::PrimaryRChromaticityX => Type::Float,
            Id::PrimaryRChromaticityY => Type::Float,
            Id::PrimaryGChromaticityX => Type::Float,
            Id::PrimaryGChromaticityY => Type::Float,
            Id::PrimaryBChromaticityX => Type::Float,
            Id::PrimaryBChromaticityY => Type::Float,
            Id::WhitePointChromaticityX => Type::Float,
            Id::WhitePointChromaticityY => Type::Float,
            Id::LuminanceMax => Type::Float,
            Id::LuminanceMin => Type::Float,
            Id::Projection => Type::Master,
            Id::ProjectionType => Type::Unsigned,
            Id::ProjectionPrivate => Type::Binary,
            Id::ProjectionPoseYaw => Type::Float,
            Id::ProjectionPosePitch => Type::Float,
            Id::ProjectionPoseRoll => Type::Float,
            Id::Audio => Type::Master,
            Id::SamplingFrequency => Type::Float,
            Id::OutputSamplingFrequency => Type::Float,
            Id::Channels => Type::Unsigned,
            Id::BitDepth => Type::Unsigned,
            Id::ContentEncodings => Type::Master,
            Id::ContentEncoding => Type::Master,
            Id::ContentEncodingOrder => Type::Unsigned,
            Id::ContentEncodingScope => Type::Unsigned,
            Id::ContentEncodingType => Type::Unsigned,
            Id::ContentEncryption => Type::Master,
            Id::ContentEncAlgo => Type::Unsigned,
            Id::ContentEncKeyId => Type::Binary,
            Id::ContentEncAesSettings => Type::Master,
            Id::AesSettingsCipherMode => Type::Unsigned,
            Id::Cues => Type::Master,
            Id::CuePoint => Type::Master,
            Id::CueTime => Type::Unsigned,
            Id::CueTrackPositions => Type::Master,
            Id::CueTrack => Type::Unsigned,
            Id::CueClusterPosition => Type::Unsigned,
            Id::CueRelativePosition => Type::Unsigned,
            Id::CueDuration => Type::Unsigned,
            Id::CueBlockNumber => Type::Unsigned,
            Id::Chapters => Type::Master,
            Id::EditionEntry => Type::Master,
            Id::ChapterAtom => Type::Master,
            Id::ChapterUid => Type::Unsigned,
            Id::ChapterStringUid => Type::Utf8,
            Id::ChapterTimeStart => Type::Unsigned,
            Id::ChapterTimeEnd => Type::Unsigned,
            Id::ChapterDisplay => Type::Master,
            Id::ChapString => Type::Utf8,
            Id::ChapLanguage => Type::String,
            Id::ChapCountry => Type::String,
            Id::Tags => Type::Master,
            Id::Tag => Type::Master,
            Id::Targets => Type::Master,
            Id::TargetTypeValue => Type::Unsigned,
            Id::TargetType => Type::String,
            Id::TagTrackUid => Type::Unsigned,
            Id::SimpleTag => Type::Master,
            Id::TagName => Type::Utf8,
            Id::TagLanguage => Type::String,
            Id::TagDefault => Type::Unsigned,
            Id::TagString => Type::Utf8,
            Id::TagBinary => Type::Binary,
            Id::Attachments => Type::Master,
            Id::AttachedFile => Type::Master,
            Id::FileDescription => Type::Utf8,
            Id::FileName => Type::Utf8,
            Id::FileMimeType => Type::String,
            Id::FileData => Type::Binary,
            Id::FileUid => Type::Unsigned,
            Id::ContentCompression => Type::Master,
            Id::ContentCompAlgo => Type::Unsigned,
            Id::ContentCompSettings => Type::Binary,
            Id::EditionUid => Type::Unsigned,
            Id::EditionFlagHidden => Type::Unsigned,
            Id::EditionFlagDefault => Type::Unsigned,
            Id::ChapterFlagHidden => Type::Unsigned,
            Id::ChapterFlagEnabled => Type::Unsigned,
            Id::TagChapterUid => Type::Unsigned,
            Id::TagEditionUid => Type::Unsigned,
            Id::TagAttachmentUid => Type::Unsigned,
        }
    }

    /// The wire value of this identifier, `None` for the corrupted marker.
    pub fn get_value(&self) -> (r: Option<u32>)
        ensures
            r == self.wire_value(),
    {
        match self {
            Id::Unknown(v) => Some(*v),
            Id::Corrupted => None,
            Id::Ebml => Some(0x1A45DFA3),
            Id::EbmlVersion => Some(0x4286),
            Id::EbmlReadVersion => Some(0x42F7),
            Id::EbmlMaxIdLength => Some(0x42F2),
            Id::EbmlMaxSizeLength => Some(0x42F3),
            Id::DocType => Some(0x4282),
            Id::DocTypeVersion => Some(0x4287),
            Id::DocTypeReadVersion => Some(0x4285),
            Id::Void => Some(0xEC),
            Id::Crc32 => Some(0xBF),
            Id::Segment => Some(0x18538067),
            Id::SeekHead => Some(0x114D9B74),
            Id::Seek => Some(0x4DBB),
            Id::SeekId => Some(0x53AB),
            Id::SeekPosition => Some(0x53AC),
            Id::Info => Some(0x1549A966),
            Id::TimecodeScale => Some(0x2AD7B1),
            Id::Duration => Some(0x4489),
            Id::DateUtc => Some(0x4461),
            Id::Title => Some(0x7BA9),
            Id::MuxingApp => Some(0x4D80),
            Id::WritingApp => Some(0x5741),
            Id::Cluster => Some(0x1F43B675),
            Id::Timecode => Some(0xE7),
            Id::PrevSize => Some(0xAB),
            Id::SimpleBlock => Some(0xA3),
            Id::BlockGroup => Some(0xA0),
            Id::Block => Some(0xA1),
            Id::BlockVirtual => Some(0xA2),
            Id::BlockAdditions => Some(0x75A1),
            Id::BlockMore => Some(0xA6),
            Id::BlockAddId => Some(0xEE),
            Id::BlockAdditional => Some(0xA5),
            Id::BlockDuration => Some(0x9B),
            Id::ReferenceBlock => Some(0xFB),
            Id::DiscardPadding => Some(0x75A2),
            Id::Slices => Some(0x8E),
            Id::TimeSlice => Some(0xE8),
            Id::LaceNumber => Some(0xCC),
            Id::Tracks => Some(0x1654AE6B),
            Id::TrackEntry => Some(0xAE),
            Id::TrackNumber => Some(0xD7),
            Id::TrackUid => Some(0x73C5),
            Id::TrackType => Some(0x83),
            Id::FlagEnabled => Some(0xB9),
            Id::FlagDefault => Some(0x88),
            Id::FlagForced => Some(0x55AA),
            Id::FlagLacing => Some(0x9C),
            Id::DefaultDuration => Some(0x23E383),
            Id::Name => Some(0x536E),
            Id::Language => Some(0x22B59C),
            Id::CodecId => Some(0x86),
            Id::CodecPrivate => Some(0x63A2),
            Id::CodecName => Some(0x258688),
            Id::CodecDelay => Some(0x56AA),
            Id::SeekPreRoll => Some(0x56BB),
            Id::Video => Some(0xE0),
            Id::FlagInterlaced => Some(0x9A),
            Id::StereoMode => Some(0x53B8),
            Id::AlphaMode => Some(0x53C0),
            Id::PixelWidth => Some(0xB0),
            Id::PixelHeight => Some(0xBA),
            Id::PixelCropBottom => Some(0x54AA),
            Id::PixelCropTop => Some(0x54BB),
            Id::PixelCropLeft => Some(0x54CC),
            Id::PixelCropRight => Some(0x54DD),
            Id::DisplayWidth => Some(0x54B0),
            Id::DisplayHeight => Some(0x54BA),
            Id::DisplayUnit => Some(0x54B2),
            Id::AspectRatioType => Some(0x54B3),
            Id::FrameRate => Some(0x2383E3),
            Id::Colour => Some(0x55B0),
            Id::MatrixCoefficients => Some(0x55B1),
            Id::BitsPerChannel => Some(0x55B2),
            Id::ChromaSubsamplingHorz => Some(0x55B3),
            Id::ChromaSubsamplingVert => Some(0x55B4),
            Id::CbSubsamplingHorz => Some(0x55B5),
            Id::CbSubsamplingVert => Some(0x55B6),
            Id::ChromaSitingHorz => Some(0x55B7),
            Id::ChromaSitingVert => Some(0x55B8),
            Id::Range => Some(0x55B9),
            Id::TransferCharacteristics => Some(0x55BA),
            Id::Primaries => Some(0x55BB),
            Id::MaxCll => Some(0x55BC),
            Id::MaxFall => Some(0x55BD),
            Id::MasteringMetadata => Some(0x55D0),
            Id::PrimaryRChromaticityX => Some(0x55D1),
            Id::PrimaryRChromaticityY => Some(0x55D2),
            Id::PrimaryGChromaticityX => Some(0x55D3),
            Id::PrimaryGChromaticityY => Some(0x55D4),
            Id::PrimaryBChromaticityX => Some(0x55D5),
            Id::PrimaryBChromaticityY => Some(0x55D6),
            Id::WhitePointChromaticityX => Some(0x55D7),
            Id::WhitePointChromaticityY => Some(0x55D8),
            Id::LuminanceMax => Some(0x55D9),
            Id::LuminanceMin => Some(0x55DA),
            Id::Projection => Some(0x7670),
            Id::ProjectionType => Some(0x7671),
            Id::ProjectionPrivate => Some(0x7672),
            Id::ProjectionPoseYaw => Some(0x7673),
            Id::ProjectionPosePitch => Some(0x7674),
            Id::ProjectionPoseRoll => Some(0x7675),
            Id::Audio => Some(0xE1),
            Id::SamplingFrequency => Some(0xB5),
            Id::OutputSamplingFrequency => Some(0x78B5),
            Id::Channels => Some(0x9F),
            Id::BitDepth => Some(0x6264),
            Id::ContentEncodings => Some(0x6D80),
            Id::ContentEncoding => Some(0x6240),
            Id::ContentEncodingOrder => Some(0x5031),
            Id::ContentEncodingScope => Some(0x5032),
            Id::ContentEncodingType => Some(0x5033),
            Id::ContentEncryption => Some(0x5035),
            Id::ContentEncAlgo => Some(0x47E1),
            Id::ContentEncKeyId => Some(0x47E2),
            Id::ContentEncAesSettings => Some(0x47E7),
            Id::AesSettingsCipherMode => Some(0x47E8),
            Id::Cues => Some(0x1C53BB6B),
            Id::CuePoint => Some(0xBB),
            Id::CueTime => Some(0xB3),
            Id::CueTrackPositions => Some(0xB7),
            Id::CueTrack => Some(0xF7),
            Id::CueClusterPosition => Some(0xF1),
            Id::CueRelativePosition => Some(0xF0),
            Id::CueDuration => Some(0xB2),
            Id::CueBlockNumber => Some(0x5378),
            Id::Chapters => Some(0x1043A770),
            Id::EditionEntry => Some(0x45B9),
            Id::ChapterAtom => Some(0xB6),
            Id::ChapterUid => Some(0x73C4),
            Id::ChapterStringUid => Some(0x5654),
            Id::ChapterTimeStart => Some(0x91),
            Id::ChapterTimeEnd => Some(0x92),
            Id::ChapterDisplay => Some(0x80),
            Id::ChapString => Some(0x85),
            Id::ChapLanguage => Some(0x437C),
            Id::ChapCountry => Some(0x437E),
            Id::Tags => Some(0x1254C367),
            Id::Tag => Some(0x7373),
            Id::Targets => Some(0x63C0),
            Id::TargetTypeValue => Some(0x68CA),
            Id::TargetType => Some(0x63CA),
            Id::TagTrackUid => Some(0x63C5),
            Id::SimpleTag => Some(0x67C8),
            Id::TagName => Some(0x45A3),
            Id::TagLanguage => Some(0x447A),
            Id::TagDefault => Some(0x4484),
            Id::TagString => Some(0x4487),
            Id::TagBinary => Some(0x4485),
            Id::Attachments => Some(0x1941A469),
            Id::AttachedFile => Some(0x61A7),
            Id::FileDescription => Some(0x467E),
            Id::FileName => Some(0x466E),
            Id::FileMimeType => Some(0x4660),
            Id::FileData => Some(0x465C),
            Id::FileUid => Some(0x46AE),
            Id::ContentCompression => Some(0x5034),
            Id::ContentCompAlgo => Some(0x4254),
            Id::ContentCompSettings => Some(0x4255),
            Id::EditionUid => Some(0x45BC),
            Id::EditionFlagHidden => Some(0x45BD),
            Id::EditionFlagDefault => Some(0x45DB),
            Id::ChapterFlagHidden => Some(0x98),
            Id::ChapterFlagEnabled => Some(0x4598),
            Id::TagChapterUid => Some(0x63C4),
            Id::TagEditionUid => Some(0x63C9),
            Id::TagAttachmentUid => Some(0x63C6),
        }
    }

    /// The schema's name of this identifier, `None` when it is not a catalog entry.
    pub fn schema_name_str(&self) -> (r: Option<&'static str>)
        ensures
            r is None <==> self.schema_name() is None,
            r matches Some(s) ==> self.schema_name() == Some(s@),
    {
        match self {
            Id::Unknown(_) => None,
            Id::Corrupted => None,
            Id::Ebml => Some("EBML"),
            Id::EbmlVersion => Some("EBMLVersion"),
            Id::EbmlReadVersion => Some("EBMLReadVersion"),
            Id::EbmlMaxIdLength => Some("EBMLMaxIDLength"),
            Id::EbmlMaxSizeLength => Some("EBMLMaxSizeLength"),
            Id::DocType => Some("DocType"),
            Id::DocTypeVersion => Some("DocTypeVersion"),
            Id::DocTypeReadVersion => Some("DocTypeReadVersion"),
            Id::Void => Some("Void"),
            Id::Crc32 => Some("CRC-32"),
            Id::Segment => Some("Segment"),
            Id::SeekHead => Some("SeekHead"),
            Id::Seek => Some("Seek"),
            Id::SeekId => Some("SeekID"),
            Id::SeekPosition => Some("SeekPosition"),
            Id::Info => Some("Info"),
            Id::TimecodeScale => Some("TimecodeScale"),
            Id::Duration => Some("Duration"),
            Id::DateUtc => Some("DateUTC"),
            Id::Title => Some("Title"),
            Id::MuxingApp => Some("MuxingApp"),
            Id::WritingApp => Some("WritingApp"),
            Id::Cluster => Some("Cluster"),
            Id::Timecode => Some("Timecode"),
            Id::PrevSize => Some("PrevSize"),
            Id::SimpleBlock => Some("SimpleBlock"),
            Id::BlockGroup => Some("BlockGroup"),
            Id::Block => Some("Block"),
            Id::BlockVirtual => Some("BlockVirtual"),
            Id::BlockAdditions => Some("BlockAdditions"),
            Id::BlockMore => Some("BlockMore"),
            Id::BlockAddId => Some("BlockAddID"),
            Id::BlockAdditional => Some("BlockAdditional"),
            Id::BlockDuration => Some("BlockDuration"),
            Id::ReferenceBlock => Some("ReferenceBlock"),
            Id::DiscardPadding => Some("DiscardPadding"),
            Id::Slices => Some("Slices"),
            Id::TimeSlice => Some("TimeSlice"),
            Id::LaceNumber => Some("LaceNumber"),
            Id::Tracks => Some("Tracks"),
            Id::TrackEntry => Some("TrackEntry"),
            Id::TrackNumber => Some("TrackNumber"),
            Id::TrackUid => Some("TrackUID"),
            Id::TrackType => Some("TrackType"),
            Id::FlagEnabled => Some("FlagEnabled"),
            Id::FlagDefault => Some("FlagDefault"),
            Id::FlagForced => Some("FlagForced"),
            Id::FlagLacing => Some("FlagLacing"),
            Id::DefaultDuration => Some("DefaultDuration"),
            Id::Name => Some("Name"),
            Id::Language => Some("Language"),
            Id::CodecId => Some("CodecID"),
            Id::CodecPrivate => Some("CodecPrivate"),
            Id::CodecName => Some("CodecName"),
            Id::CodecDelay => Some("CodecDelay"),
            Id::SeekPreRoll => Some("SeekPreRoll"),
            Id::Video => Some("Video"),
            Id::FlagInterlaced => Some("FlagInterlaced"),
            Id::StereoMode => Some("StereoMode"),
            Id::AlphaMode => Some("AlphaMode"),
            Id::PixelWidth => Some("PixelWidth"),
            Id::PixelHeight => Some("PixelHeight"),
            Id::PixelCropBottom => Some("PixelCropBottom"),
            Id::PixelCropTop => Some("PixelCropTop"),
            Id::PixelCropLeft => Some("PixelCropLeft"),
            Id::PixelCropRight => Some("PixelCropRight"),
            Id::DisplayWidth => Some("DisplayWidth"),
            Id::DisplayHeight => Some("DisplayHeight"),
            Id::DisplayUnit => Some("DisplayUnit"),
            Id::AspectRatioType => Some("AspectRatioType"),
            Id::FrameRate => Some("FrameRate"),
            Id::Colour => Some("Colour"),
            Id::MatrixCoefficients => Some("MatrixCoefficients"),
            Id::BitsPerChannel => Some("BitsPerChannel"),
            Id::ChromaSubsamplingHorz => Some("ChromaSubsamplingHorz"),
            Id::ChromaSubsamplingVert => Some("ChromaSubsamplingVert"),
            Id::CbSubsamplingHorz => Some("CbSubsamplingHorz"),
            Id::CbSubsamplingVert => Some("CbSubsamplingVert"),
            Id::ChromaSitingHorz => Some("ChromaSitingHorz"),
            Id::ChromaSitingVert => Some("ChromaSitingVert"),
            Id::Range => Some("Range"),
            Id::TransferCharacteristics => Some("TransferCharacteristics"),
            Id::Primaries => Some("Primaries"),
            Id::MaxCll => Some("MaxCLL"),
            Id::MaxFall => Some("MaxFALL"),
            Id::MasteringMetadata => Some("MasteringMetadata"),
            Id::PrimaryRChromaticityX => Some("PrimaryRChromaticityX"),
            Id::PrimaryRChromaticityY => Some("PrimaryRChromaticityY"),
            Id::PrimaryGChromaticityX => Some("PrimaryGChromaticityX"),
            Id::PrimaryGChromaticityY => Some("PrimaryGChromaticityY"),
            Id::PrimaryBChromaticityX => Some("PrimaryBChromaticityX"),
            Id::PrimaryBChromaticityY => Some("PrimaryBChromaticityY"),
            Id::WhitePointChromaticityX => Some("WhitePointChromaticityX"),
            Id::WhitePointChromaticityY => Some("WhitePointChromaticityY"),
            Id::LuminanceMax => Some("LuminanceMax"),
            Id::LuminanceMin => Some("LuminanceMin"),
            Id::Projection => Some("Projection"),
            Id::ProjectionType => Some("ProjectionType"),
            Id::ProjectionPrivate => Some("ProjectionPrivate"),
            Id::ProjectionPoseYaw => Some("ProjectionPoseYaw"),
            Id::ProjectionPosePitch => Some("ProjectionPosePitch"),
            Id::ProjectionPoseRoll => Some("ProjectionPoseRoll"),
            Id::Audio => Some("Audio"),
            Id::SamplingFrequency => Some("SamplingFrequency"),
            Id::OutputSamplingFrequency => Some("OutputSamplingFrequency"),
            Id::Channels => Some("Channels"),
            Id::BitDepth => Some("BitDepth"),
            Id::ContentEncodings => Some("ContentEncodings"),
            Id::ContentEncoding => Some("ContentEncoding"),
            Id::ContentEncodingOrder => Some("ContentEncodingOrder"),
            Id::ContentEncodingScope => Some("ContentEncodingScope"),
            Id::ContentEncodingType => Some("ContentEncodingType"),
            Id::ContentEncryption => Some("ContentEncryption"),
            Id::ContentEncAlgo => Some("ContentEncAlgo"),
            Id::ContentEncKeyId => Some("ContentEncKeyID"),
            Id::ContentEncAesSettings => Some("ContentEncAESSettings"),
            Id::AesSettingsCipherMode => Some("AESSettingsCipherMode"),
            Id::Cues => Some("Cues"),
            Id::CuePoint => Some("CuePoint"),
            Id::CueTime => Some("CueTime"),
            Id::CueTrackPositions => Some("CueTrackPositions"),
            Id::CueTrack => Some("CueTrack"),
            Id::CueClusterPosition => Some("CueClusterPosition"),
            Id::CueRelativePosition => Some("CueRelativePosition"),
            Id::CueDuration => Some("CueDuration"),
            Id::CueBlockNumber => Some("CueBlockNumber"),
            Id::Chapters => Some("Chapters"),
            Id::EditionEntry => Some("EditionEntry"),
            Id::ChapterAtom => Some("ChapterAtom"),
            Id::ChapterUid => Some("ChapterUID"),
            Id::ChapterStringUid => Some("ChapterStringUID"),
            Id::ChapterTimeStart => Some("ChapterTimeStart"),
            Id::ChapterTimeEnd => Some("ChapterTimeEnd"),
            Id::ChapterDisplay => Some("ChapterDisplay"),
            Id::ChapString => Some("ChapString"),
            Id::ChapLanguage => Some("ChapLanguage"),
            Id::ChapCountry => Some("ChapCountry"),
            Id::Tags => Some("Tags"),
            Id::Tag => Some("Tag"),
            Id::Targets => Some("Targets"),
            Id::TargetTypeValue => Some("TargetTypeValue"),
            Id::TargetType => Some("TargetType"),
            Id::TagTrackUid => Some("TagTrackUID"),
            Id::SimpleTag => Some("SimpleTag"),
            Id::TagName => Some("TagName"),
            Id::TagLanguage => Some("TagLanguage"),
            Id::TagDefault => Some("TagDefault"),
            Id::TagString => Some("TagString"),
            Id::TagBinary => Some("TagBinary"),
            Id::Attachments => Some("Attachments"),
            Id::AttachedFile => Some("AttachedFile"),
            Id::FileDescription => Some("FileDescription"),
            Id::FileName => Some("FileName"),
            Id::FileMimeType => Some("FileMimeType"),
            Id::FileData => Some("FileData"),
            Id::FileUid => Some("FileUID"),
            Id::ContentCompression => Some("ContentCompression"),
            Id::ContentCompAlgo => Some("ContentCompAlgo"),
            Id::ContentCompSettings => Some("ContentCompSettings"),
            Id::EditionUid => Some("EditionUID"),
            Id::EditionFlagHidden => Some("EditionFlagHidden"),
            Id::EditionFlagDefault => Some("EditionFlagDefault"),
            Id::ChapterFlagHidden => Some("ChapterFlagHidden"),
            Id::ChapterFlagEnabled => Some("ChapterFlagEnabled"),
            Id::TagChapterUid => Some("TagChapterUID"),
            Id::TagEditionUid => Some("TagEditionUID"),
            Id::TagAttachmentUid => Some("TagAttachmentUID"),
        }
    }
}

} // verus!
