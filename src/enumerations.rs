use vstd::prelude::*;

use crate::elements::Id;

verus! {

/// The label that the schema gives to `value` of element `id`, if it is a member of its enumeration.
pub open spec fn wire_label(id: Id, value: u64) -> Option<Seq<char>> {
    match id {
        Id::TrackType => {
            if value == 1 {
                Some("video"@)
            } else if value == 2 {
                Some("audio"@)
            } else if value == 3 {
                Some("complex"@)
            } else if value == 16 {
                Some("logo"@)
            } else if value == 17 {
                Some("subtitle"@)
            } else if value == 18 {
                Some("buttons"@)
            } else if value == 32 {
                Some("control"@)
            } else if value == 33 {
                Some("metadata"@)
            } else {
                None
            }
        },
        Id::FlagInterlaced => {
            if value == 0 {
                Some("undetermined"@)
            } else if value == 1 {
                Some("interlaced"@)
            } else if value == 2 {
                Some("progressive"@)
            } else {
                None
            }
        },
        Id::StereoMode => {
            if value == 0 {
                Some("mono"@)
            } else if value == 1 {
                Some("side by side (left eye first)"@)
            } else if value == 2 {
                Some("top - bottom (right eye is first)"@)
            } else if value == 3 {
                Some("top - bottom (left eye is first)"@)
            } else if value == 4 {
                Some("checkboard (right eye is first)"@)
            } else if value == 5 {
                Some("checkboard (left eye is first)"@)
            } else if value == 6 {
                Some("row interleaved (right eye is first)"@)
            } else if value == 7 {
                Some("row interleaved (left eye is first)"@)
            } else if value == 8 {
                Some("column interleaved (right eye is first)"@)
            } else if value == 9 {
                Some("column interleaved (left eye is first)"@)
            } else if value == 10 {
                Some("anaglyph (cyan/red)"@)
            } else if value == 11 {
                Some("side by side (right eye first)"@)
            } else if value == 12 {
                Some("anaglyph (green/magenta)"@)
            } else if value == 13 {
                Some("both eyes laced in one Block (left eye is first)"@)
            } else if value == 14 {
                Some("both eyes laced in one Block (right eye is first)"@)
            } else {
                None
            }
        },
        Id::AlphaMode => {
            if value == 0 {
                Some("none"@)
            } else if value == 1 {
                Some("present"@)
            } else {
                None
            }
        },
        Id::DisplayUnit => {
            if value == 0 {
                Some("pixels"@)
            } else if value == 1 {
                Some("centimeters"@)
            } else if value == 2 {
                Some("inches"@)
            } else if value == 3 {
                Some("display aspect ratio"@)
            } else if value == 4 {
                Some("unknown"@)
            } else {
                None
            }
        },
        Id::AspectRatioType => {
            if value == 0 {
                Some("free resizing"@)
            } else if value == 1 {
                Some("keep aspect ratio"@)
            } else if value == 2 {
                Some("fixed"@)
            } else {
                None
            }
        },
        Id::MatrixCoefficients => {
            if value == 0 {
                Some("Identity"@)
            } else if value == 1 {
                Some("ITU-R BT.709"@)
            } else if value == 2 {
                Some("unspecified"@)
            } else if value == 3 {
                Some("reserved"@)
            } else if value == 4 {
                Some("US FCC 73.682"@)
            } else if value == 5 {
                Some("ITU-R BT.470BG"@)
            } else if value == 6 {
                Some("SMPTE 170M"@)
            } else if value == 7 {
                Some("SMPTE 240M"@)
            } else if value == 8 {
                Some("YCoCg"@)
            } else if value == 9 {
                Some("BT2020 Non-constant Luminance"@)
            } else if value == 10 {
                Some("BT2020 Constant Luminance"@)
            } else if value == 11 {
                Some("SMPTE ST 2085"@)
            } else if value == 12 {
                Some("Chroma-derived Non-constant Luminance"@)
            } else if value == 13 {
                Some("Chroma-derived Constant Luminance"@)
            } else if value == 14 {
                Some("ITU-R BT.2100-0"@)
            } else {
                None
            }
        },
        Id::ChromaSitingHorz => {
            if value == 0 {
                Some("unspecified"@)
            } else if value == 1 {
                Some("left collocated"@)
            } else if value == 2 {
                Some("half"@)
            } else {
                None
            }
        },
        Id::ChromaSitingVert => {
            if value == 0 {
                Some("unspecified"@)
            } else if value == 1 {
                Some("top collocated"@)
            } else if value == 2 {
                Some("half"@)
            } else {
                None
            }
        },
        Id::Range => {
            if value == 0 {
                Some("unspecified"@)
            } else if value == 1 {
                Some("broadcast range"@)
            } else if value == 2 {
                Some("full range (no clipping)"@)
            } else if value == 3 {
                Some("defined by MatrixCoefficients / TransferCharacteristics"@)
            } else {
                None
            }
        },
        Id::ProjectionType => {
            if value == 0 {
                Some("rectangular"@)
            } else if value == 1 {
                Some("equirectangular"@)
            } else if value == 2 {
                Some("cubemap"@)
            } else if value == 3 {
                Some("mesh"@)
            } else {
                None
            }
        },
        Id::ContentEncodingScope => {
            if value == 1 {
                Some("Block"@)
            } else if value == 2 {
                Some("Private"@)
            } else if value == 4 {
                Some("Next"@)
            } else {
                None
            }
        },
        Id::ContentEncodingType => {
            if value == 0 {
                Some("Compression"@)
            } else if value == 1 {
                Some("Encryption"@)
            } else {
                None
            }
        },
        Id::ContentCompAlgo => {
            if value == 0 {
                Some("zlib"@)
            } else if value == 1 {
                Some("bzlib"@)
            } else if value == 2 {
                Some("lzo1x"@)
            } else if value == 3 {
                Some("Header Stripping"@)
            } else {
                None
            }
        },
        Id::ContentEncAlgo => {
            if value == 0 {
                Some("Not encrypted"@)
            } else if value == 1 {
                Some("DES"@)
            } else if value == 2 {
                Some("3DES"@)
            } else if value == 3 {
                Some("Twofish"@)
            } else if value == 4 {
                Some("Blowfish"@)
            } else if value == 5 {
                Some("AES"@)
            } else {
                None
            }
        },
        Id::AesSettingsCipherMode => {
            if value == 1 {
                Some("AES-CTR"@)
            } else if value == 2 {
                Some("AES-CBC"@)
            } else {
                None
            }
        },
        Id::TargetTypeValue => {
            if value == 70 {
                Some("COLLECTION"@)
            } else if value == 60 {
                Some("EDITION / ISSUE / VOLUME / OPUS / SEASON / SEQUEL"@)
            } else if value == 50 {
                Some("ALBUM / OPERA / CONCERT / MOVIE / EPISODE"@)
            } else if value == 40 {
                Some("PART / SESSION"@)
            } else if value == 30 {
                Some("TRACK / SONG / CHAPTER"@)
            } else if value == 20 {
                Some("SUBTRACK / MOVEMENT / SCENE"@)
            } else if value == 10 {
                Some("SHOT"@)
            } else {
                None
            }
        },
        _ => None,
    }
}

/// The canonical (upper camel case) label of `value` of element `id`, if it is a member of its enumeration.
pub open spec fn canonical_label(id: Id, value: u64) -> Option<Seq<char>> {
    match id {
        Id::TrackType => {
            if value == 1 {
                Some("Video"@)
            } else if value == 2 {
                Some("Audio"@)
            } else if value == 3 {
                Some("Complex"@)
            } else if value == 16 {
                Some("Logo"@)
            } else if value == 17 {
                Some("Subtitle"@)
            } else if value == 18 {
                Some("Buttons"@)
            } else if value == 32 {
                Some("Control"@)
            } else if value == 33 {
                Some("Metadata"@)
            } else {
                None
            }
        },
        Id::FlagInterlaced => {
            if value == 0 {
                Some("Undetermined"@)
            } else if value == 1 {
                Some("Interlaced"@)
            } else if value == 2 {
                Some("Progressive"@)
            } else {
                None
            }
        },
        Id::StereoMode => {
            if value == 0 {
                Some("Mono"@)
            } else if value == 1 {
                Some("SideBySideLeftEyeFirst"@)
            } else if value == 2 {
                Some("TopBottomRightEyeIsFirst"@)
            } else if value == 3 {
                Some("TopBottomLeftEyeIsFirst"@)
            } else if value == 4 {
                Some("CheckboardRightEyeIsFirst"@)
            } else if value == 5 {
                Some("CheckboardLeftEyeIsFirst"@)
            } else if value == 6 {
                Some("RowInterleavedRightEyeIsFirst"@)
            } else if value == 7 {
                Some("RowInterleavedLeftEyeIsFirst"@)
            } else if value == 8 {
                Some("ColumnInterleavedRightEyeIsFirst"@)
            } else if value == 9 {
                Some("ColumnInterleavedLeftEyeIsFirst"@)
            } else if value == 10 {
                Some("AnaglyphCyanRed"@)
            } else if value == 11 {
                Some("SideBySideRightEyeFirst"@)
            } else if value == 12 {
                Some("AnaglyphGreenMagenta"@)
            } else if value == 13 {
                Some("BothEyesLacedInOneBlockLeftEyeIsFirst"@)
            } else if value == 14 {
                Some("BothEyesLacedInOneBlockRightEyeIsFirst"@)
            } else {
                None
            }
        },
        Id::AlphaMode => {
            if value == 0 {
                Some("None"@)
            } else if value == 1 {
                Some("Present"@)
            } else {
                None
            }
        },
        Id::DisplayUnit => {
            if value == 0 {
                Some("Pixels"@)
            } else if value == 1 {
                Some("Centimeters"@)
            } else if value == 2 {
                Some("Inches"@)
            } else if value == 3 {
                Some("DisplayAspectRatio"@)
            } else if value == 4 {
                Some("Unknown"@)
            } else {
                None
            }
        },
        Id::AspectRatioType => {
            if value == 0 {
                Some("FreeResizing"@)
            } else if value == 1 {
                Some("KeepAspectRatio"@)
            } else if value == 2 {
                Some("Fixed"@)
            } else {
                None
            }
        },
        Id::MatrixCoefficients => {
            if value == 0 {
                Some("Identity"@)
            } else if value == 1 {
                Some("ItuRBt709"@)
            } else if value == 2 {
                Some("Unspecified"@)
            } else if value == 3 {
                Some("Reserved1"@)
            } else if value == 4 {
                Some("UsFcc73682"@)
            } else if value == 5 {
                Some("ItuRBt470bg"@)
            } else if value == 6 {
                Some("Smpte170m"@)
            } else if value == 7 {
                Some("Smpte240m"@)
            } else if value == 8 {
                Some("YCoCg"@)
            } else if value == 9 {
                Some("Bt2020NonConstantLuminance"@)
            } else if value == 10 {
                Some("Bt2020ConstantLuminance"@)
            } else if value == 11 {
                Some("SmpteSt2085"@)
            } else if value == 12 {
                Some("ChromaDerivedNonConstantLuminance"@)
            } else if value == 13 {
                Some("ChromaDerivedConstantLuminance"@)
            } else if value == 14 {
                Some("ItuRBt21000"@)
            } else {
                None
            }
        },
        Id::ChromaSitingHorz => {
            if value == 0 {
                Some("Unspecified"@)
            } else if value == 1 {
                Some("LeftCollocated"@)
            } else if value == 2 {
                Some("Half"@)
            } else {
                None
            }
        },
        Id::ChromaSitingVert => {
            if value == 0 {
                Some("Unspecified"@)
            } else if value == 1 {
                Some("TopCollocated"@)
            } else if value == 2 {
                Some("Half"@)
            } else {
                None
            }
        },
        Id::Range => {
            if value == 0 {
                Some("Unspecified"@)
            } else if value == 1 {
                Some("BroadcastRange"@)
            } else if value == 2 {
                Some("FullRangeNoClipping"@)
            } else if value == 3 {
                Some("DefinedByMatrixCoefficientsTransferCharacteristics"@)
            } else {
                None
            }
        },
        Id::ProjectionType => {
            if value == 0 {
                Some("Rectangular"@)
            } else if value == 1 {
                Some("Equirectangular"@)
            } else if value == 2 {
                Some("Cubemap"@)
            } else if value == 3 {
                Some("Mesh"@)
            } else {
                None
            }
        },
        Id::ContentEncodingScope => {
            if value == 1 {
                Some("Block"@)
            } else if value == 2 {
                Some("Private"@)
            } else if value == 4 {
                Some("Next"@)
            } else {
                None
            }
        },
        Id::ContentEncodingType => {
            if value == 0 {
                Some("Compression"@)
            } else if value == 1 {
                Some("Encryption"@)
            } else {
                None
            }
        },
        Id::ContentCompAlgo => {
            if value == 0 {
                Some("Zlib"@)
            } else if value == 1 {
                Some("Bzlib"@)
            } else if value == 2 {
                Some("Lzo1x"@)
            } else if value == 3 {
                Some("HeaderStripping"@)
            } else {
                None
            }
        },
        Id::ContentEncAlgo => {
            if value == 0 {
                Some("NotEncrypted"@)
            } else if value == 1 {
                Some("Des"@)
            } else if value == 2 {
                Some("TripleDes"@)
            } else if value == 3 {
                Some("Twofish"@)
            } else if value == 4 {
                Some("Blowfish"@)
            } else if value == 5 {
                Some("Aes"@)
            } else {
                None
            }
        },
        Id::AesSettingsCipherMode => {
            if value == 1 {
                Some("AesCtr"@)
            } else if value == 2 {
                Some("AesCbc"@)
            } else {
                None
            }
        },
        Id::TargetTypeValue => {
            if value == 70 {
                Some("Collection"@)
            } else if value == 60 {
                Some("EditionIssueVolumeOpusSeasonSequel"@)
            } else if value == 50 {
                Some("AlbumOperaConcertMovieEpisode"@)
            } else if value == 40 {
                Some("PartSession"@)
            } else if value == 30 {
                Some("TrackSongChapter"@)
            } else if value == 20 {
                Some("SubtrackMovementScene"@)
            } else if value == 10 {
                Some("Shot"@)
            } else {
                None
            }
        },
        _ => None,
    }
}

/// Whether `value` is a member of the enumeration of element `id`.
pub open spec fn is_member(id: Id, value: u64) -> bool {
    wire_label(id, value) is Some
}

/// The member of the enumeration of element `id` whose schema label is `label`.
pub open spec fn value_of_wire_label(id: Id, label: Seq<char>) -> Option<u64> {
    match id {
        Id::TrackType => {
            if label == "video"@ {
                Some(1u64)
            } else if label == "audio"@ {
                Some(2u64)
            } else if label == "complex"@ {
                Some(3u64)
            } else if label == "logo"@ {
                Some(16u64)
            } else if label == "subtitle"@ {
                Some(17u64)
            } else if label == "buttons"@ {
                Some(18u64)
            } else if label == "control"@ {
                Some(32u64)
            } else if label == "metadata"@ {
                Some(33u64)
            } else {
                None
            }
        },
        Id::FlagInterlaced => {
            if label == "undetermined"@ {
                Some(0u64)
            } else if label == "interlaced"@ {
                Some(1u64)
            } else if label == "progressive"@ {
                Some(2u64)
            } else {
                None
            }
        },
        Id::StereoMode => {
            if label == "mono"@ {
                Some(0u64)
            } else if label == "side by side (left eye first)"@ {
                Some(1u64)
            } else if label == "top - bottom (right eye is first)"@ {
                Some(2u64)
            } else if label == "top - bottom (left eye is first)"@ {
                Some(3u64)
            } else if label == "checkboard (right eye is first)"@ {
                Some(4u64)
            } else if label == "checkboard (left eye is first)"@ {
                Some(5u64)
            } else if label == "row interleaved (right eye is first)"@ {
                Some(6u64)
            } else if label == "row interleaved (left eye is first)"@ {
                Some(7u64)
            } else if label == "column interleaved (right eye is first)"@ {
                Some(8u64)
            } else if label == "column interleaved (left eye is first)"@ {
                Some(9u64)
            } else if label == "anaglyph (cyan/red)"@ {
                Some(10u64)
            } else if label == "side by side (right eye first)"@ {
                Some(11u64)
            } else if label == "anaglyph (green/magenta)"@ {
                Some(12u64)
            } else if label == "both eyes laced in one Block (left eye is first)"@ {
                Some(13u64)
            } else if label == "both eyes laced in one Block (right eye is first)"@ {
                Some(14u64)
            } else {
                None
            }
        },
        Id::AlphaMode => {
            if label == "none"@ {
                Some(0u64)
            } else if label == "present"@ {
                Some(1u64)
            } else {
                None
            }
        },
        Id::DisplayUnit => {
            if label == "pixels"@ {
                Some(0u64)
            } else if label == "centimeters"@ {
                Some(1u64)
            } else if label == "inches"@ {
                Some(2u64)
            } else if label == "display aspect ratio"@ {
                Some(3u64)
            } else if label == "unknown"@ {
                Some(4u64)
            } else {
                None
            }
        },
        Id::AspectRatioType => {
            if label == "free resizing"@ {
                Some(0u64)
            } else if label == "keep aspect ratio"@ {
                Some(1u64)
            } else if label == "fixed"@ {
                Some(2u64)
            } else {
                None
            }
        },
        Id::MatrixCoefficients => {
            if label == "Identity"@ {
                Some(0u64)
            } else if label == "ITU-R BT.709"@ {
                Some(1u64)
            } else if label == "unspecified"@ {
                Some(2u64)
            } else if label == "reserved"@ {
                Some(3u64)
            } else if label == "US FCC 73.682"@ {
                Some(4u64)
            } else if label == "ITU-R BT.470BG"@ {
                Some(5u64)
            } else if label == "SMPTE 170M"@ {
                Some(6u64)
            } else if label == "SMPTE 240M"@ {
                Some(7u64)
            } else if label == "YCoCg"@ {
                Some(8u64)
            } else if label == "BT2020 Non-constant Luminance"@ {
                Some(9u64)
            } else if label == "BT2020 Constant Luminance"@ {
                Some(10u64)
            } else if label == "SMPTE ST 2085"@ {
                Some(11u64)
            } else if label == "Chroma-derived Non-constant Luminance"@ {
                Some(12u64)
            } else if label == "Chroma-derived Constant Luminance"@ {
                Some(13u64)
            } else if label == "ITU-R BT.2100-0"@ {
                Some(14u64)
            } else {
                None
            }
        },
        Id::ChromaSitingHorz => {
            if label == "unspecified"@ {
                Some(0u64)
            } else if label == "left collocated"@ {
                Some(1u64)
            } else if label == "half"@ {
                Some(2u64)
            } else {
                None
            }
        },
        Id::ChromaSitingVert => {
            if label == "unspecified"@ {
                Some(0u64)
            } else if label == "top collocated"@ {
                Some(1u64)
            } else if label == "half"@ {
                Some(2u64)
            } else {
                None
            }
        },
        Id::Range => {
            if label == "unspecified"@ {
                Some(0u64)
            } else if label == "broadcast range"@ {
                Some(1u64)
            } else if label == "full range (no clipping)"@ {
                Some(2u64)
            } else if label == "defined by MatrixCoefficients / TransferCharacteristics"@ {
                Some(3u64)
            } else {
                None
            }
        },
        Id::ProjectionType => {
            if label == "rectangular"@ {
                Some(0u64)
            } else if label == "equirectangular"@ {
                Some(1u64)
            } else if label == "cubemap"@ {
                Some(2u64)
            } else if label == "mesh"@ {
                Some(3u64)
            } else {
                None
            }
        },
        Id::ContentEncodingScope => {
            if label == "Block"@ {
                Some(1u64)
            } else if label == "Private"@ {
                Some(2u64)
            } else if label == "Next"@ {
                Some(4u64)
            } else {
                None
            }
        },
        Id::ContentEncodingType => {
            if label == "Compression"@ {
                Some(0u64)
            } else if label == "Encryption"@ {
                Some(1u64)
            } else {
                None
            }
        },
        Id::ContentCompAlgo => {
            if label == "zlib"@ {
                Some(0u64)
            } else if label == "bzlib"@ {
                Some(1u64)
            } else if label == "lzo1x"@ {
                Some(2u64)
            } else if label == "Header Stripping"@ {
                Some(3u64)
            } else {
                None
            }
        },
        Id::ContentEncAlgo => {
            if label == "Not encrypted"@ {
                Some(0u64)
            } else if label == "DES"@ {
                Some(1u64)
            } else if label == "3DES"@ {
                Some(2u64)
            } else if label == "Twofish"@ {
                Some(3u64)
            } else if label == "Blowfish"@ {
                Some(4u64)
            } else if label == "AES"@ {
                Some(5u64)
            } else {
                None
            }
        },
        Id::AesSettingsCipherMode => {
            if label == "AES-CTR"@ {
                Some(1u64)
            } else if label == "AES-CBC"@ {
                Some(2u64)
            } else {
                None
            }
        },
        Id::TargetTypeValue => {
            if label == "COLLECTION"@ {
                Some(70u64)
            } else if label == "EDITION / ISSUE / VOLUME / OPUS / SEASON / SEQUEL"@ {
                Some(60u64)
            } else if label == "ALBUM / OPERA / CONCERT / MOVIE / EPISODE"@ {
                Some(50u64)
            } else if label == "PART / SESSION"@ {
                Some(40u64)
            } else if label == "TRACK / SONG / CHAPTER"@ {
                Some(30u64)
            } else if label == "SUBTRACK / MOVEMENT / SCENE"@ {
                Some(20u64)
            } else if label == "SHOT"@ {
                Some(10u64)
            } else {
                None
            }
        },
        _ => None,
    }
}

proof fn lemma_distinct_labels_tracktype()
    ensures
        forall|v: u64| is_member(Id::TrackType, v) ==> value_of_wire_label(Id::TrackType, wire_label(Id::TrackType, v).unwrap()) == Some(v),
{
    reveal_strlit("video");
    reveal_strlit("audio");
    reveal_strlit("complex");
    reveal_strlit("logo");
    reveal_strlit("subtitle");
    reveal_strlit("buttons");
    reveal_strlit("control");
    reveal_strlit("metadata");
    assert("video"@[0] != "audio"@[0]);
    assert("video"@.len() != "complex"@.len());
    assert("video"@.len() != "logo"@.len());
    assert("video"@.len() != "subtitle"@.len());
    assert("video"@.len() != "buttons"@.len());
    assert("video"@.len() != "control"@.len());
    assert("video"@.len() != "metadata"@.len());
    assert("audio"@.len() != "complex"@.len());
    assert("audio"@.len() != "logo"@.len());
    assert("audio"@.len() != "subtitle"@.len());
    assert("audio"@.len() != "buttons"@.len());
    assert("audio"@.len() != "control"@.len());
    assert("audio"@.len() != "metadata"@.len());
    assert("complex"@.len() != "logo"@.len());
    assert("complex"@.len() != "subtitle"@.len());
    assert("complex"@[0] != "buttons"@[0]);
    assert("complex"@[2] != "control"@[2]);
    assert("complex"@.len() != "metadata"@.len());
    assert("logo"@.len() != "subtitle"@.len());
    assert("logo"@.len() != "buttons"@.len());
    assert("logo"@.len() != "control"@.len());
    assert("logo"@.len() != "metadata"@.len());
    assert("subtitle"@.len() != "buttons"@.len());
    assert("subtitle"@.len() != "control"@.len());
    assert("subtitle"@[0] != "metadata"@[0]);
    assert("buttons"@[0] != "control"@[0]);
    assert("buttons"@.len() != "metadata"@.len());
    assert("control"@.len() != "metadata"@.len());
}

proof fn lemma_distinct_labels_flaginterlaced()
    ensures
        forall|v: u64| is_member(Id::FlagInterlaced, v) ==> value_of_wire_label(Id::FlagInterlaced, wire_label(Id::FlagInterlaced, v).unwrap()) == Some(v),
{
    reveal_strlit("undetermined");
    reveal_strlit("interlaced");
    reveal_strlit("progressive");
    assert("undetermined"@.len() != "interlaced"@.len());
    assert("undetermined"@.len() != "progressive"@.len());
    assert("interlaced"@.len() != "progressive"@.len());
}

proof fn lemma_distinct_labels_stereomode()
    ensures
        forall|v: u64| is_member(Id::StereoMode, v) ==> value_of_wire_label(Id::StereoMode, wire_label(Id::StereoMode, v).unwrap()) == Some(v),
{
    reveal_strlit("mono");
    reveal_strlit("side by side (left eye first)");
    reveal_strlit("top - bottom (right eye is first)");
    reveal_strlit("top - bottom (left eye is first)");
    reveal_strlit("checkboard (right eye is first)");
    reveal_strlit("checkboard (left eye is first)");
    reveal_strlit("row interleaved (right eye is first)");
    reveal_strlit("row interleaved (left eye is first)");
    reveal_strlit("column interleaved (right eye is first)");
    reveal_strlit("column interleaved (left eye is first)");
    reveal_strlit("anaglyph (cyan/red)");
    reveal_strlit("side by side (right eye first)");
    reveal_strlit("anaglyph (green/magenta)");
    reveal_strlit("both eyes laced in one Block (left eye is first)");
    reveal_strlit("both eyes laced in one Block (right eye is first)");
    assert("mono"@.len() != "side by side (left eye first)"@.len());
    assert("mono"@.len() != "top - bottom (right eye is first)"@.len());
    assert("mono"@.len() != "top - bottom (left eye is first)"@.len());
    assert("mono"@.len() != "checkboard (right eye is first)"@.len());
    assert("mono"@.len() != "checkboard (left eye is first)"@.len());
    assert("mono"@.len() != "row interleaved (right eye is first)"@.len());
    assert("mono"@.len() != "row interleaved (left eye is first)"@.len());
    assert("mono"@.len() != "column interleaved (right eye is first)"@.len());
    assert("mono"@.len() != "column interleaved (left eye is first)"@.len());
    assert("mono"@.len() != "anaglyph (cyan/red)"@.len());
    assert("mono"@.len() != "side by side (right eye first)"@.len());
    assert("mono"@.len() != "anaglyph (green/magenta)"@.len());
    assert("mono"@.len() != "both eyes laced in one Block (left eye is first)"@.len());
    assert("mono"@.len() != "both eyes laced in one Block (right eye is first)"@.len());
    assert("side by side (left eye first)"@.len() != "top - bottom (right eye is first)"@.len());
    assert("side by side (left eye first)"@.len() != "top - bottom (left eye is first)"@.len());
    assert("side by side (left eye first)"@.len() != "checkboard (right eye is first)"@.len());
    assert("side by side (left eye first)"@.len() != "checkboard (left eye is first)"@.len());
    assert("side by side (left eye first)"@.len() != "row interleaved (right eye is first)"@.len());
    assert("side by side (left eye first)"@.len() != "row interleaved (left eye is first)"@.len());
    assert("side by side (left eye first)"@.len() != "column interleaved (right eye is first)"@.len());
    assert("side by side (left eye first)"@.len() != "column interleaved (left eye is first)"@.len());
    assert("side by side (left eye first)"@.len() != "anaglyph (cyan/red)"@.len());
    assert("side by side (left eye first)"@.len() != "side by side (right eye first)"@.len());
    assert("side by side (left eye first)"@.len() != "anaglyph (green/magenta)"@.len());
    assert("side by side (left eye first)"@.len() != "both eyes laced in one Block (left eye is first)"@.len());
    assert("side by side (left eye first)"@.len() != "both eyes laced in one Block (right eye is first)"@.len());
    assert("top - bottom (right eye is first)"@.len() != "top - bottom (left eye is first)"@.len());
    assert("top - bottom (right eye is first)"@.len() != "checkboard (right eye is first)"@.len());
    assert("top - bottom (right eye is first)"@.len() != "checkboard (left eye is first)"@.len());
    assert("top - bottom (right eye is first)"@.len() != "row interleaved (right eye is first)"@.len());
    assert("top - bottom (right eye is first)"@.len() != "row interleaved (left eye is first)"@.len());
    assert("top - bottom (right eye is first)"@.len() != "column interleaved (right eye is first)"@.len());
    assert("top - bottom (right eye is first)"@.len() != "column interleaved (left eye is first)"@.len());
    assert("top - bottom (right eye is first)"@.len() != "anaglyph (cyan/red)"@.len());
    assert("top - bottom (right eye is first)"@.len() != "side by side (right eye first)"@.len());
    assert("top - bottom (right eye is first)"@.len() != "anaglyph (green/magenta)"@.len());
    assert("top - bottom (right eye is first)"@.len() != "both eyes laced in one Block (left eye is first)"@.len());
    assert("top - bottom (right eye is first)"@.len() != "both eyes laced in one Block (right eye is first)"@.len());
    assert("top - bottom (left eye is first)"@.len() != "checkboard (right eye is first)"@.len());
    assert("top - bottom (left eye is first)"@.len() != "checkboard (left eye is first)"@.len());
    assert("top - bottom (left eye is first)"@.len() != "row interleaved (right eye is first)"@.len());
    assert("top - bottom (left eye is first)"@.len() != "row interleaved (left eye is first)"@.len());
    assert("top - bottom (left eye is first)"@.len() != "column interleaved (right eye is first)"@.len());
    assert("top - bottom (left eye is first)"@.len() != "column interleaved (left eye is first)"@.len());
    assert("top - bottom (left eye is first)"@.len() != "anaglyph (cyan/red)"@.len());
    assert("top - bottom (left eye is first)"@.len() != "side by side (right eye first)"@.len());
    assert("top - bottom (left eye is first)"@.len() != "anaglyph (green/magenta)"@.len());
    assert("top - bottom (left eye is first)"@.len() != "both eyes laced in one Block (left eye is first)"@.len());
    assert("top - bottom (left eye is first)"@.len() != "both eyes laced in one Block (right eye is first)"@.len());
    assert("checkboard (right eye is first)"@.len() != "checkboard (left eye is first)"@.len());
    assert("checkboard (right eye is first)"@.len() != "row interleaved (right eye is first)"@.len());
    assert("checkboard (right eye is first)"@.len() != "row interleaved (left eye is first)"@.len());
    assert("checkboard (right eye is first)"@.len() != "column interleaved (right eye is first)"@.len());
    assert("checkboard (right eye is first)"@.len() != "column interleaved (left eye is first)"@.len());
    assert("checkboard (right eye is first)"@.len() != "anaglyph (cyan/red)"@.len());
    assert("checkboard (right eye is first)"@.len() != "side by side (right eye first)"@.len());
    assert("checkboard (right eye is first)"@.len() != "anaglyph (green/magenta)"@.len());
    assert("checkboard (right eye is first)"@.len() != "both eyes laced in one Block (left eye is first)"@.len());
    assert("checkboard (right eye is first)"@.len() != "both eyes laced in one Block (right eye is first)"@.len());
    assert("checkboard (left eye is first)"@.len() != "row interleaved (right eye is first)"@.len());
    assert("checkboard (left eye is first)"@.len() != "row interleaved (left eye is first)"@.len());
    assert("checkboard (left eye is first)"@.len() != "column interleaved (right eye is first)"@.len());
    assert("checkboard (left eye is first)"@.len() != "column interleaved (left eye is first)"@.len());
    assert("checkboard (left eye is first)"@.len() != "anaglyph (cyan/red)"@.len());
    assert("checkboard (left eye is first)"@[0] != "side by side (right eye first)"@[0]);
    assert("checkboard (left eye is first)"@.len() != "anaglyph (green/magenta)"@.len());
    assert("checkboard (left eye is first)"@.len() != "both eyes laced in one Block (left eye is first)"@.len());
    assert("checkboard (left eye is first)"@.len() != "both eyes laced in one Block (right eye is first)"@.len());
    assert("row interleaved (right eye is first)"@.len() != "row interleaved (left eye is first)"@.len());
    assert("row interleaved (right eye is first)"@.len() != "column interleaved (right eye is first)"@.len());
    assert("row interleaved (right eye is first)"@.len() != "column interleaved (left eye is first)"@.len());
    assert("row interleaved (right eye is first)"@.len() != "anaglyph (cyan/red)"@.len());
    assert("row interleaved (right eye is first)"@.len() != "side by side (right eye first)"@.len());
    assert("row interleaved (right eye is first)"@.len() != "anaglyph (green/magenta)"@.len());
    assert("row interleaved (right eye is first)"@.len() != "both eyes laced in one Block (left eye is first)"@.len());
    assert("row interleaved (right eye is first)"@.len() != "both eyes laced in one Block (right eye is first)"@.len());
    assert("row interleaved (left eye is first)"@.len() != "column interleaved (right eye is first)"@.len());
    assert("row interleaved (left eye is first)"@.len() != "column interleaved (left eye is first)"@.len());
    assert("row interleaved (left eye is first)"@.len() != "anaglyph (cyan/red)"@.len());
    assert("row interleaved (left eye is first)"@.len() != "side by side (right eye first)"@.len());
    assert("row interleaved (left eye is first)"@.len() != "anaglyph (green/magenta)"@.len());
    assert("row interleaved (left eye is first)"@.len() != "both eyes laced in one Block (left eye is first)"@.len());
    assert("row interleaved (left eye is first)"@.len() != "both eyes laced in one Block (right eye is first)"@.len());
    assert("column interleaved (right eye is first)"@.len() != "column interleaved (left eye is first)"@.len());
    assert("column interleaved (right eye is first)"@.len() != "anaglyph (cyan/red)"@.len());
    assert("column interleaved (right eye is first)"@.len() != "side by side (right eye first)"@.len());
    assert("column interleaved (right eye is first)"@.len() != "anaglyph (green/magenta)"@.len());
    assert("column interleaved (right eye is first)"@.len() != "both eyes laced in one Block (left eye is first)"@.len());
    assert("column interleaved (right eye is first)"@.len() != "both eyes laced in one Block (right eye is first)"@.len());
    assert("column interleaved (left eye is first)"@.len() != "anaglyph (cyan/red)"@.len());
    assert("column interleaved (left eye is first)"@.len() != "side by side (right eye first)"@.len());
    assert("column interleaved (left eye is first)"@.len() != "anaglyph (green/magenta)"@.len());
    assert("column interleaved (left eye is first)"@.len() != "both eyes laced in one Block (left eye is first)"@.len());
    assert("column interleaved (left eye is first)"@.len() != "both eyes laced in one Block (right eye is first)"@.len());
    assert("anaglyph (cyan/red)"@.len() != "side by side (right eye first)"@.len());
    assert("anaglyph (cyan/red)"@.len() != "anaglyph (green/magenta)"@.len());
    assert("anaglyph (cyan/red)"@.len() != "both eyes laced in one Block (left eye is first)"@.len());
    assert("anaglyph (cyan/red)"@.len() != "both eyes laced in one Block (right eye is first)"@.len());
    assert("side by side (right eye first)"@.len() != "anaglyph (green/magenta)"@.len());
    assert("side by side (right eye first)"@.len() != "both eyes laced in one Block (left eye is first)"@.len());
    assert("side by side (right eye first)"@.len() != "both eyes laced in one Block (right eye is first)"@.len());
    assert("anaglyph (green/magenta)"@.len() != "both eyes laced in one Block (left eye is first)"@.len());
    assert("anaglyph (green/magenta)"@.len() != "both eyes laced in one Block (right eye is first)"@.len());
    assert("both eyes laced in one Block (left eye is first)"@.len() != "both eyes laced in one Block (right eye is first)"@.len());
}

proof fn lemma_distinct_labels_alphamode()
    ensures
        forall|v: u64| is_member(Id::AlphaMode, v) ==> value_of_wire_label(Id::AlphaMode, wire_label(Id::AlphaMode, v).unwrap()) == Some(v),
{
    reveal_strlit("none");
    reveal_strlit("present");
    assert("none"@.len() != "present"@.len());
}

proof fn lemma_distinct_labels_displayunit()
    ensures
        forall|v: u64| is_member(Id::DisplayUnit, v) ==> value_of_wire_label(Id::DisplayUnit, wire_label(Id::DisplayUnit, v).unwrap()) == Some(v),
{
    reveal_strlit("pixels");
    reveal_strlit("centimeters");
    reveal_strlit("inches");
    reveal_strlit("display aspect ratio");
    reveal_strlit("unknown");
    assert("pixels"@.len() != "centimeters"@.len());
    assert("pixels"@[0] != "inches"@[0]);
    assert("pixels"@.len() != "display aspect ratio"@.len());
    assert("pixels"@.len() != "unknown"@.len());
    assert("centimeters"@.len() != "inches"@.len());
    assert("centimeters"@.len() != "display aspect ratio"@.len());
    assert("centimeters"@.len() != "unknown"@.len());
    assert("inches"@.len() != "display aspect ratio"@.len());
    assert("inches"@.len() != "unknown"@.len());
    assert("display aspect ratio"@.len() != "unknown"@.len());
}

proof fn lemma_distinct_labels_aspectratiotype()
    ensures
        forall|v: u64| is_member(Id::AspectRatioType, v) ==> value_of_wire_label(Id::AspectRatioType, wire_label(Id::AspectRatioType, v).unwrap()) == Some(v),
{
    reveal_strlit("free resizing");
    reveal_strlit("keep aspect ratio");
    reveal_strlit("fixed");
    assert("free resizing"@.len() != "keep aspect ratio"@.len());
    assert("free resizing"@.len() != "fixed"@.len());
    assert("keep aspect ratio"@.len() != "fixed"@.len());
}

proof fn lemma_distinct_labels_matrixcoefficients()
    ensures
        forall|v: u64| is_member(Id::MatrixCoefficients, v) ==> value_of_wire_label(Id::MatrixCoefficients, wire_label(Id::MatrixCoefficients, v).unwrap()) == Some(v),
{
    reveal_strlit("Identity");
    reveal_strlit("ITU-R BT.709");
    reveal_strlit("unspecified");
    reveal_strlit("reserved");
    reveal_strlit("US FCC 73.682");
    reveal_strlit("ITU-R BT.470BG");
    reveal_strlit("SMPTE 170M");
    reveal_strlit("SMPTE 240M");
    reveal_strlit("YCoCg");
    reveal_strlit("BT2020 Non-constant Luminance");
    reveal_strlit("BT2020 Constant Luminance");
    reveal_strlit("SMPTE ST 2085");
    reveal_strlit("Chroma-derived Non-constant Luminance");
    reveal_strlit("Chroma-derived Constant Luminance");
    reveal_strlit("ITU-R BT.2100-0");
    assert("Identity"@.len() != "ITU-R BT.709"@.len());
    assert("Identity"@.len() != "unspecified"@.len());
    assert("Identity"@[0] != "reserved"@[0]);
    assert("Identity"@.len() != "US FCC 73.682"@.len());
    assert("Identity"@.len() != "ITU-R BT.470BG"@.len());
    assert("Identity"@.len() != "SMPTE 170M"@.len());
    assert("Identity"@.len() != "SMPTE 240M"@.len());
    assert("Identity"@.len() != "YCoCg"@.len());
    assert("Identity"@.len() != "BT2020 Non-constant Luminance"@.len());
    assert("Identity"@.len() != "BT2020 Constant Luminance"@.len());
    assert("Identity"@.len() != "SMPTE ST 2085"@.len());
    assert("Identity"@.len() != "Chroma-derived Non-constant Luminance"@.len());
    assert("Identity"@.len() != "Chroma-derived Constant Luminance"@.len());
    assert("Identity"@.len() != "ITU-R BT.2100-0"@.len());
    assert("ITU-R BT.709"@.len() != "unspecified"@.len());
    assert("ITU-R BT.709"@.len() != "reserved"@.len());
    assert("ITU-R BT.709"@.len() != "US FCC 73.682"@.len());
    assert("ITU-R BT.709"@.len() != "ITU-R BT.470BG"@.len());
    assert("ITU-R BT.709"@.len() != "SMPTE 170M"@.len());
    assert("ITU-R BT.709"@.len() != "SMPTE 240M"@.len());
    assert("ITU-R BT.709"@.len() != "YCoCg"@.len());
    assert("ITU-R BT.709"@.len() != "BT2020 Non-constant Luminance"@.len());
    assert("ITU-R BT.709"@.len() != "BT2020 Constant Luminance"@.len());
    assert("ITU-R BT.709"@.len() != "SMPTE ST 2085"@.len());
    assert("ITU-R BT.709"@.len() != "Chroma-derived Non-constant Luminance"@.len());
    assert("ITU-R BT.709"@.len() != "Chroma-derived Constant Luminance"@.len());
    assert("ITU-R BT.709"@.len() != "ITU-R BT.2100-0"@.len());
    assert("unspecified"@.len() != "reserved"@.len());
    assert("unspecified"@.len() != "US FCC 73.682"@.len());
    assert("unspecified"@.len() != "ITU-R BT.470BG"@.len());
    assert("unspecified"@.len() != "SMPTE 170M"@.len());
    assert("unspecified"@.len() != "SMPTE 240M"@.len());
    assert("unspecified"@.len() != "YCoCg"@.len());
    assert("unspecified"@.len() != "BT2020 Non-constant Luminance"@.len());
    assert("unspecified"@.len() != "BT2020 Constant Luminance"@.len());
    assert("unspecified"@.len() != "SMPTE ST 2085"@.len());
    assert("unspecified"@.len() != "Chroma-derived Non-constant Luminance"@.len());
    assert("unspecified"@.len() != "Chroma-derived Constant Luminance"@.len());
    assert("unspecified"@.len() != "ITU-R BT.2100-0"@.len());
    assert("reserved"@.len() != "US FCC 73.682"@.len());
    assert("reserved"@.len() != "ITU-R BT.470BG"@.len());
    assert("reserved"@.len() != "SMPTE 170M"@.len());
    assert("reserved"@.len() != "SMPTE 240M"@.len());
    assert("reserved"@.len() != "YCoCg"@.len());
    assert("reserved"@.len() != "BT2020 Non-constant Luminance"@.len());
    assert("reserved"@.len() != "BT2020 Constant Luminance"@.len());
    assert("reserved"@.len() != "SMPTE ST 2085"@.len());
    assert("reserved"@.len() != "Chroma-derived Non-constant Luminance"@.len());
    assert("reserved"@.len() != "Chroma-derived Constant Luminance"@.len());
    assert("reserved"@.len() != "ITU-R BT.2100-0"@.len());
    assert("US FCC 73.682"@.len() != "ITU-R BT.470BG"@.len());
    assert("US FCC 73.682"@.len() != "SMPTE 170M"@.len());
    assert("US FCC 73.682"@.len() != "SMPTE 240M"@.len());
    assert("US FCC 73.682"@.len() != "YCoCg"@.len());
    assert("US FCC 73.682"@.len() != "BT2020 Non-constant Luminance"@.len());
    assert("US FCC 73.682"@.len() != "BT2020 Constant Luminance"@.len());
    assert("US FCC 73.682"@[0] != "SMPTE ST 2085"@[0]);
    assert("US FCC 73.682"@.len() != "Chroma-derived Non-constant Luminance"@.len());
    assert("US FCC 73.682"@.len() != "Chroma-derived Constant Luminance"@.len());
    assert("US FCC 73.682"@.len() != "ITU-R BT.2100-0"@.len());
    assert("ITU-R BT.470BG"@.len() != "SMPTE 170M"@.len());
    assert("ITU-R BT.470BG"@.len() != "SMPTE 240M"@.len());
    assert("ITU-R BT.470BG"@.len() != "YCoCg"@.len());
    assert("ITU-R BT.470BG"@.len() != "BT2020 Non-constant Luminance"@.len());
    assert("ITU-R BT.470BG"@.len() != "BT2020 Constant Luminance"@.len());
    assert("ITU-R BT.470BG"@.len() != "SMPTE ST 2085"@.len());
    assert("ITU-R BT.470BG"@.len() != "Chroma-derived Non-constant Luminance"@.len());
    assert("ITU-R BT.470BG"@.len() != "Chroma-derived Constant Luminance"@.len());
    assert("ITU-R BT.470BG"@.len() != "ITU-R BT.2100-0"@.len());
    assert("SMPTE 170M"@[6] != "SMPTE 240M"@[6]);
    assert("SMPTE 170M"@.len() != "YCoCg"@.len());
    assert("SMPTE 170M"@.len() != "BT2020 Non-constant Luminance"@.len());
    assert("SMPTE 170M"@.len() != "BT2020 Constant Luminance"@.len());
    assert("SMPTE 170M"@.len() != "SMPTE ST 2085"@.len());
    assert("SMPTE 170M"@.len() != "Chroma-derived Non-constant Luminance"@.len());
    assert("SMPTE 170M"@.len() != "Chroma-derived Constant Luminance"@.len());
    assert("SMPTE 170M"@.len() != "ITU-R BT.2100-0"@.len());
    assert("SMPTE 240M"@.len() != "YCoCg"@.len());
    assert("SMPTE 240M"@.len() != "BT2020 Non-constant Luminance"@.len());
    assert("SMPTE 240M"@.len() != "BT2020 Constant Luminance"@.len());
    assert("SMPTE 240M"@.len() != "SMPTE ST 2085"@.len());
    assert("SMPTE 240M"@.len() != "Chroma-derived Non-constant Luminance"@.len());
    assert("SMPTE 240M"@.len() != "Chroma-derived Constant Luminance"@.len());
    assert("SMPTE 240M"@.len() != "ITU-R BT.2100-0"@.len());
    assert("YCoCg"@.len() != "BT2020 Non-constant Luminance"@.len());
    assert("YCoCg"@.len() != "BT2020 Constant Luminance"@.len());
    assert("YCoCg"@.len() != "SMPTE ST 2085"@.len());
    assert("YCoCg"@.len() != "Chroma-derived Non-constant Luminance"@.len());
    assert("YCoCg"@.len() != "Chroma-derived Constant Luminance"@.len());
    assert("YCoCg"@.len() != "ITU-R BT.2100-0"@.len());
    assert("BT2020 Non-constant Luminance"@.len() != "BT2020 Constant Luminance"@.len());
    assert("BT2020 Non-constant Luminance"@.len() != "SMPTE ST 2085"@.len());
    assert("BT2020 Non-constant Luminance"@.len() != "Chroma-derived Non-constant Luminance"@.len());
    assert("BT2020 Non-constant Luminance"@.len() != "Chroma-derived Constant Luminance"@.len());
    assert("BT2020 Non-constant Luminance"@.len() != "ITU-R BT.2100-0"@.len());
    assert("BT2020 Constant Luminance"@.len() != "SMPTE ST 2085"@.len());
    assert("BT2020 Constant Luminance"@.len() != "Chroma-derived Non-constant Luminance"@.len());
    assert("BT2020 Constant Luminance"@.len() != "Chroma-derived Constant Luminance"@.len());
    assert("BT2020 Constant Luminance"@.len() != "ITU-R BT.2100-0"@.len());
    assert("SMPTE ST 2085"@.len() != "Chroma-derived Non-constant Luminance"@.len());
    assert("SMPTE ST 2085"@.len() != "Chroma-derived Constant Luminance"@.len());
    assert("SMPTE ST 2085"@.len() != "ITU-R BT.2100-0"@.len());
    assert("Chroma-derived Non-constant Luminance"@.len() != "Chroma-derived Constant Luminance"@.len());
    assert("Chroma-derived Non-constant Luminance"@.len() != "ITU-R BT.2100-0"@.len());
    assert("Chroma-derived Constant Luminance"@.len() != "ITU-R BT.2100-0"@.len());
}

proof fn lemma_distinct_labels_chromasitinghorz()
    ensures
        forall|v: u64| is_member(Id::ChromaSitingHorz, v) ==> value_of_wire_label(Id::ChromaSitingHorz, wire_label(Id::ChromaSitingHorz, v).unwrap()) == Some(v),
{
    reveal_strlit("unspecified");
    reveal_strlit("left collocated");
    reveal_strlit("half");
    assert("unspecified"@.len() != "left collocated"@.len());
    assert("unspecified"@.len() != "half"@.len());
    assert("left collocated"@.len() != "half"@.len());
}

proof fn lemma_distinct_labels_chromasitingvert()
    ensures
        forall|v: u64| is_member(Id::ChromaSitingVert, v) ==> value_of_wire_label(Id::ChromaSitingVert, wire_label(Id::ChromaSitingVert, v).unwrap()) == Some(v),
{
    reveal_strlit("unspecified");
    reveal_strlit("top collocated");
    reveal_strlit("half");
    assert("unspecified"@.len() != "top collocated"@.len());
    assert("unspecified"@.len() != "half"@.len());
    assert("top collocated"@.len() != "half"@.len());
}

proof fn lemma_distinct_labels_range()
    ensures
        forall|v: u64| is_member(Id::Range, v) ==> value_of_wire_label(Id::Range, wire_label(Id::Range, v).unwrap()) == Some(v),
{
    reveal_strlit("unspecified");
    reveal_strlit("broadcast range");
    reveal_strlit("full range (no clipping)");
    reveal_strlit("defined by MatrixCoefficients / TransferCharacteristics");
    assert("unspecified"@.len() != "broadcast range"@.len());
    assert("unspecified"@.len() != "full range (no clipping)"@.len());
    assert("unspecified"@.len() != "defined by MatrixCoefficients / TransferCharacteristics"@.len());
    assert("broadcast range"@.len() != "full range (no clipping)"@.len());
    assert("broadcast range"@.len() != "defined by MatrixCoefficients / TransferCharacteristics"@.len());
    assert("full range (no clipping)"@.len() != "defined by MatrixCoefficients / TransferCharacteristics"@.len());
}

proof fn lemma_distinct_labels_projectiontype()
    ensures
        forall|v: u64| is_member(Id::ProjectionType, v) ==> value_of_wire_label(Id::ProjectionType, wire_label(Id::ProjectionType, v).unwrap()) == Some(v),
{
    reveal_strlit("rectangular");
    reveal_strlit("equirectangular");
    reveal_strlit("cubemap");
    reveal_strlit("mesh");
    assert("rectangular"@.len() != "equirectangular"@.len());
    assert("rectangular"@.len() != "cubemap"@.len());
    assert("rectangular"@.len() != "mesh"@.len());
    assert("equirectangular"@.len() != "cubemap"@.len());
    assert("equirectangular"@.len() != "mesh"@.len());
    assert("cubemap"@.len() != "mesh"@.len());
}

proof fn lemma_distinct_labels_contentencodingscope()
    ensures
        forall|v: u64| is_member(Id::ContentEncodingScope, v) ==> value_of_wire_label(Id::ContentEncodingScope, wire_label(Id::ContentEncodingScope, v).unwrap()) == Some(v),
{
    reveal_strlit("Block");
    reveal_strlit("Private");
    reveal_strlit("Next");
    assert("Block"@.len() != "Private"@.len());
    assert("Block"@.len() != "Next"@.len());
    assert("Private"@.len() != "Next"@.len());
}

proof fn lemma_distinct_labels_contentencodingtype()
    ensures
        forall|v: u64| is_member(Id::ContentEncodingType, v) ==> value_of_wire_label(Id::ContentEncodingType, wire_label(Id::ContentEncodingType, v).unwrap()) == Some(v),
{
    reveal_strlit("Compression");
    reveal_strlit("Encryption");
    assert("Compression"@.len() != "Encryption"@.len());
}

proof fn lemma_distinct_labels_contentcompalgo()
    ensures
        forall|v: u64| is_member(Id::ContentCompAlgo, v) ==> value_of_wire_label(Id::ContentCompAlgo, wire_label(Id::ContentCompAlgo, v).unwrap()) == Some(v),
{
    reveal_strlit("zlib");
    reveal_strlit("bzlib");
    reveal_strlit("lzo1x");
    reveal_strlit("Header Stripping");
    assert("zlib"@.len() != "bzlib"@.len());
    assert("zlib"@.len() != "lzo1x"@.len());
    assert("zlib"@.len() != "Header Stripping"@.len());
    assert("bzlib"@[0] != "lzo1x"@[0]);
    assert("bzlib"@.len() != "Header Stripping"@.len());
    assert("lzo1x"@.len() != "Header Stripping"@.len());
}

proof fn lemma_distinct_labels_contentencalgo()
    ensures
        forall|v: u64| is_member(Id::ContentEncAlgo, v) ==> value_of_wire_label(Id::ContentEncAlgo, wire_label(Id::ContentEncAlgo, v).unwrap()) == Some(v),
{
    reveal_strlit("Not encrypted");
    reveal_strlit("DES");
    reveal_strlit("3DES");
    reveal_strlit("Twofish");
    reveal_strlit("Blowfish");
    reveal_strlit("AES");
    assert("Not encrypted"@.len() != "DES"@.len());
    assert("Not encrypted"@.len() != "3DES"@.len());
    assert("Not encrypted"@.len() != "Twofish"@.len());
    assert("Not encrypted"@.len() != "Blowfish"@.len());
    assert("Not encrypted"@.len() != "AES"@.len());
    assert("DES"@.len() != "3DES"@.len());
    assert("DES"@.len() != "Twofish"@.len());
    assert("DES"@.len() != "Blowfish"@.len());
    assert("DES"@[0] != "AES"@[0]);
    assert("3DES"@.len() != "Twofish"@.len());
    assert("3DES"@.len() != "Blowfish"@.len());
    assert("3DES"@.len() != "AES"@.len());
    assert("Twofish"@.len() != "Blowfish"@.len());
    assert("Twofish"@.len() != "AES"@.len());
    assert("Blowfish"@.len() != "AES"@.len());
}

proof fn lemma_distinct_labels_aessettingsciphermode()
    ensures
        forall|v: u64| is_member(Id::AesSettingsCipherMode, v) ==> value_of_wire_label(Id::AesSettingsCipherMode, wire_label(Id::AesSettingsCipherMode, v).unwrap()) == Some(v),
{
    reveal_strlit("AES-CTR");
    reveal_strlit("AES-CBC");
    assert("AES-CTR"@[5] != "AES-CBC"@[5]);
}

proof fn lemma_distinct_labels_targettypevalue()
    ensures
        forall|v: u64| is_member(Id::TargetTypeValue, v) ==> value_of_wire_label(Id::TargetTypeValue, wire_label(Id::TargetTypeValue, v).unwrap()) == Some(v),
{
    reveal_strlit("COLLECTION");
    reveal_strlit("EDITION / ISSUE / VOLUME / OPUS / SEASON / SEQUEL");
    reveal_strlit("ALBUM / OPERA / CONCERT / MOVIE / EPISODE");
    reveal_strlit("PART / SESSION");
    reveal_strlit("TRACK / SONG / CHAPTER");
    reveal_strlit("SUBTRACK / MOVEMENT / SCENE");
    reveal_strlit("SHOT");
    assert("COLLECTION"@.len() != "EDITION / ISSUE / VOLUME / OPUS / SEASON / SEQUEL"@.len());
    assert("COLLECTION"@.len() != "ALBUM / OPERA / CONCERT / MOVIE / EPISODE"@.len());
    assert("COLLECTION"@.len() != "PART / SESSION"@.len());
    assert("COLLECTION"@.len() != "TRACK / SONG / CHAPTER"@.len());
    assert("COLLECTION"@.len() != "SUBTRACK / MOVEMENT / SCENE"@.len());
    assert("COLLECTION"@.len() != "SHOT"@.len());
    assert("EDITION / ISSUE / VOLUME / OPUS / SEASON / SEQUEL"@.len() != "ALBUM / OPERA / CONCERT / MOVIE / EPISODE"@.len());
    assert("EDITION / ISSUE / VOLUME / OPUS / SEASON / SEQUEL"@.len() != "PART / SESSION"@.len());
    assert("EDITION / ISSUE / VOLUME / OPUS / SEASON / SEQUEL"@.len() != "TRACK / SONG / CHAPTER"@.len());
    assert("EDITION / ISSUE / VOLUME / OPUS / SEASON / SEQUEL"@.len() != "SUBTRACK / MOVEMENT / SCENE"@.len());
    assert("EDITION / ISSUE / VOLUME / OPUS / SEASON / SEQUEL"@.len() != "SHOT"@.len());
    assert("ALBUM / OPERA / CONCERT / MOVIE / EPISODE"@.len() != "PART / SESSION"@.len());
    assert("ALBUM / OPERA / CONCERT / MOVIE / EPISODE"@.len() != "TRACK / SONG / CHAPTER"@.len());
    assert("ALBUM / OPERA / CONCERT / MOVIE / EPISODE"@.len() != "SUBTRACK / MOVEMENT / SCENE"@.len());
    assert("ALBUM / OPERA / CONCERT / MOVIE / EPISODE"@.len() != "SHOT"@.len());
    assert("PART / SESSION"@.len() != "TRACK / SONG / CHAPTER"@.len());
    assert("PART / SESSION"@.len() != "SUBTRACK / MOVEMENT / SCENE"@.len());
    assert("PART / SESSION"@.len() != "SHOT"@.len());
    assert("TRACK / SONG / CHAPTER"@.len() != "SUBTRACK / MOVEMENT / SCENE"@.len());
    assert("TRACK / SONG / CHAPTER"@.len() != "SHOT"@.len());
    assert("SUBTRACK / MOVEMENT / SCENE"@.len() != "SHOT"@.len());
}

/// Looking up a member's schema label in its enumeration gives the member
/// back: no two members of one enumeration share a label.
pub proof fn lemma_label_round_trip(id: Id, value: u64)
    requires
        is_member(id, value),
    ensures
        value_of_wire_label(id, wire_label(id, value).unwrap()) == Some(value),
{
    match id {
        Id::TrackType => lemma_distinct_labels_tracktype(),
        Id::FlagInterlaced => lemma_distinct_labels_flaginterlaced(),
        Id::StereoMode => lemma_distinct_labels_stereomode(),
        Id::AlphaMode => lemma_distinct_labels_alphamode(),
        Id::DisplayUnit => lemma_distinct_labels_displayunit(),
        Id::AspectRatioType => lemma_distinct_labels_aspectratiotype(),
        Id::MatrixCoefficients => lemma_distinct_labels_matrixcoefficients(),
        Id::ChromaSitingHorz => lemma_distinct_labels_chromasitinghorz(),
        Id::ChromaSitingVert => lemma_distinct_labels_chromasitingvert(),
        Id::Range => lemma_distinct_labels_range(),
        Id::ProjectionType => lemma_distinct_labels_projectiontype(),
        Id::ContentEncodingScope => lemma_distinct_labels_contentencodingscope(),
        Id::ContentEncodingType => lemma_distinct_labels_contentencodingtype(),
        Id::ContentCompAlgo => lemma_distinct_labels_contentcompalgo(),
        Id::ContentEncAlgo => lemma_distinct_labels_contentencalgo(),
        Id::AesSettingsCipherMode => lemma_distinct_labels_aessettingsciphermode(),
        Id::TargetTypeValue => lemma_distinct_labels_targettypevalue(),
        _ => {},
    }
}

/// Whether two strings hold the same characters.
fn same_text(a: &str, b: &str) -> (r: bool)
    ensures
        r == (a@ == b@),
{
    a.to_owned() == b.to_owned()
}

/// A member of the enumeration that the catalog declares for an unsigned element.
#[derive(Debug, Clone, Copy, PartialEq, Eq, Structural)]
pub struct Enumeration {
    /// The element whose enumeration this value belongs to.
    pub id: Id,
    /// The value on the wire.
    pub value: u64,
}

impl Enumeration {
    /// The value is a member of the element's enumeration.
    pub open spec fn wf(self) -> bool {
        is_member(self.id, self.value)
    }

    /// The member `value` of the enumeration of `id`, `None` when it is no member.
    pub fn new(id: &Id, value: u64) -> (r: Option<Enumeration>)
        ensures
            r is Some <==> is_member(*id, value),
            r matches Some(e) ==> e.id == *id && e.value == value,
    {
        let known = match id {
            Id::TrackType => value == 1 || value == 2 || value == 3 || value == 16 || value == 17 || value == 18 || value == 32 || value == 33,
            Id::FlagInterlaced => value == 0 || value == 1 || value == 2,
            Id::StereoMode => value == 0 || value == 1 || value == 2 || value == 3 || value == 4 || value == 5 || value == 6 || value == 7 || value == 8 || value == 9 || value == 10 || value == 11 || value == 12 || value == 13 || value == 14,
            Id::AlphaMode => value == 0 || value == 1,
            Id::DisplayUnit => value == 0 || value == 1 || value == 2 || value == 3 || value == 4,
            Id::AspectRatioType => value == 0 || value == 1 || value == 2,
            Id::MatrixCoefficients => value == 0 || value == 1 || value == 2 || value == 3 || value == 4 || value == 5 || value == 6 || value == 7 || value == 8 || value == 9 || value == 10 || value == 11 || value == 12 || value == 13 || value == 14,
            Id::ChromaSitingHorz => value == 0 || value == 1 || value == 2,
            Id::ChromaSitingVert => value == 0 || value == 1 || value == 2,
            Id::Range => value == 0 || value == 1 || value == 2 || value == 3,
            Id::ProjectionType => value == 0 || value == 1 || value == 2 || value == 3,
            Id::ContentEncodingScope => value == 1 || value == 2 || value == 4,
            Id::ContentEncodingType => value == 0 || value == 1,
            Id::ContentCompAlgo => value == 0 || value == 1 || value == 2 || value == 3,
            Id::ContentEncAlgo => value == 0 || value == 1 || value == 2 || value == 3 || value == 4 || value == 5,
            Id::AesSettingsCipherMode => value == 1 || value == 2,
            Id::TargetTypeValue => value == 70 || value == 60 || value == 50 || value == 40 || value == 30 || value == 20 || value == 10,
            _ => false,
        };
        if known {
            Some(Enumeration { id: *id, value })
        } else {
            None
        }
    }

    /// The canonical label of this member.
    pub fn label(&self) -> (r: &'static str)
        requires
            self.wf(),
        ensures
            canonical_label(self.id, self.value) == Some(r@),
    {
        let value = self.value;
        match self.id {
            Id::TrackType => {
                if value == 1 {
                    "Video"
                } else if value == 2 {
                    "Audio"
                } else if value == 3 {
                    "Complex"
                } else if value == 16 {
                    "Logo"
                } else if value == 17 {
                    "Subtitle"
                } else if value == 18 {
                    "Buttons"
                } else if value == 32 {
                    "Control"
                } else if value == 33 {
                    "Metadata"
                } else {
                    ""
                }
            },
            Id::FlagInterlaced => {
                if value == 0 {
                    "Undetermined"
                } else if value == 1 {
                    "Interlaced"
                } else if value == 2 {
                    "Progressive"
                } else {
                    ""
                }
            },
            Id::StereoMode => {
                if value == 0 {
                    "Mono"
                } else if value == 1 {
                    "SideBySideLeftEyeFirst"
                } else if value == 2 {
                    "TopBottomRightEyeIsFirst"
                } else if value == 3 {
                    "TopBottomLeftEyeIsFirst"
                } else if value == 4 {
                    "CheckboardRightEyeIsFirst"
                } else if value == 5 {
                    "CheckboardLeftEyeIsFirst"
                } else if value == 6 {
                    "RowInterleavedRightEyeIsFirst"
                } else if value == 7 {
                    "RowInterleavedLeftEyeIsFirst"
                } else if value == 8 {
                    "ColumnInterleavedRightEyeIsFirst"
                } else if value == 9 {
                    "ColumnInterleavedLeftEyeIsFirst"
                } else if value == 10 {
                    "AnaglyphCyanRed"
                } else if value == 11 {
                    "SideBySideRightEyeFirst"
                } else if value == 12 {
                    "AnaglyphGreenMagenta"
                } else if value == 13 {
                    "BothEyesLacedInOneBlockLeftEyeIsFirst"
                } else if value == 14 {
                    "BothEyesLacedInOneBlockRightEyeIsFirst"
                } else {
                    ""
                }
            },
            Id::AlphaMode => {
                if value == 0 {
                    "None"
                } else if value == 1 {
                    "Present"
                } else {
                    ""
                }
            },
            Id::DisplayUnit => {
                if value == 0 {
                    "Pixels"
                } else if value == 1 {
                    "Centimeters"
                } else if value == 2 {
                    "Inches"
                } else if value == 3 {
                    "DisplayAspectRatio"
                } else if value == 4 {
                    "Unknown"
                } else {
                    ""
                }
            },
            Id::AspectRatioType => {
                if value == 0 {
                    "FreeResizing"
                } else if value == 1 {
                    "KeepAspectRatio"
                } else if value == 2 {
                    "Fixed"
                } else {
                    ""
                }
            },
            Id::MatrixCoefficients => {
                if value == 0 {
                    "Identity"
                } else if value == 1 {
                    "ItuRBt709"
                } else if value == 2 {
                    "Unspecified"
                } else if value == 3 {
                    "Reserved1"
                } else if value == 4 {
                    "UsFcc73682"
                } else if value == 5 {
                    "ItuRBt470bg"
                } else if value == 6 {
                    "Smpte170m"
                } else if value == 7 {
                    "Smpte240m"
                } else if value == 8 {
                    "YCoCg"
                } else if value == 9 {
                    "Bt2020NonConstantLuminance"
                } else if value == 10 {
                    "Bt2020ConstantLuminance"
                } else if value == 11 {
                    "SmpteSt2085"
                } else if value == 12 {
                    "ChromaDerivedNonConstantLuminance"
                } else if value == 13 {
                    "ChromaDerivedConstantLuminance"
                } else if value == 14 {
                    "ItuRBt21000"
                } else {
                    ""
                }
            },
            Id::ChromaSitingHorz => {
                if value == 0 {
                    "Unspecified"
                } else if value == 1 {
                    "LeftCollocated"
                } else if value == 2 {
                    "Half"
                } else {
                    ""
                }
            },
            Id::ChromaSitingVert => {
                if value == 0 {
                    "Unspecified"
                } else if value == 1 {
                    "TopCollocated"
                } else if value == 2 {
                    "Half"
                } else {
                    ""
                }
            },
            Id::Range => {
                if value == 0 {
                    "Unspecified"
                } else if value == 1 {
                    "BroadcastRange"
                } else if value == 2 {
                    "FullRangeNoClipping"
                } else if value == 3 {
                    "DefinedByMatrixCoefficientsTransferCharacteristics"
                } else {
                    ""
                }
            },
            Id::ProjectionType => {
                if value == 0 {
                    "Rectangular"
                } else if value == 1 {
                    "Equirectangular"
                } else if value == 2 {
                    "Cubemap"
                } else if value == 3 {
                    "Mesh"
                } else {
                    ""
                }
            },
            Id::ContentEncodingScope => {
                if value == 1 {
                    "Block"
                } else if value == 2 {
                    "Private"
                } else if value == 4 {
                    "Next"
                } else {
                    ""
                }
            },
            Id::ContentEncodingType => {
                if value == 0 {
                    "Compression"
                } else if value == 1 {
                    "Encryption"
                } else {
                    ""
                }
            },
            Id::ContentCompAlgo => {
                if value == 0 {
                    "Zlib"
                } else if value == 1 {
                    "Bzlib"
                } else if value == 2 {
                    "Lzo1x"
                } else if value == 3 {
                    "HeaderStripping"
                } else {
                    ""
                }
            },
            Id::ContentEncAlgo => {
                if value == 0 {
                    "NotEncrypted"
                } else if value == 1 {
                    "Des"
                } else if value == 2 {
                    "TripleDes"
                } else if value == 3 {
                    "Twofish"
                } else if value == 4 {
                    "Blowfish"
                } else if value == 5 {
                    "Aes"
                } else {
                    ""
                }
            },
            Id::AesSettingsCipherMode => {
                if value == 1 {
                    "AesCtr"
                } else if value == 2 {
                    "AesCbc"
                } else {
                    ""
                }
            },
            Id::TargetTypeValue => {
                if value == 70 {
                    "Collection"
                } else if value == 60 {
                    "EditionIssueVolumeOpusSeasonSequel"
                } else if value == 50 {
                    "AlbumOperaConcertMovieEpisode"
                } else if value == 40 {
                    "PartSession"
                } else if value == 30 {
                    "TrackSongChapter"
                } else if value == 20 {
                    "SubtrackMovementScene"
                } else if value == 10 {
                    "Shot"
                } else {
                    ""
                }
            },
            _ => "",
        }
    }

    /// The label that the schema gives to this member.
    pub fn original_label(&self) -> (r: &'static str)
        requires
            self.wf(),
        ensures
            wire_label(self.id, self.value) == Some(r@),
    {
        let value = self.value;
        match self.id {
            Id::TrackType => {
                if value == 1 {
                    "video"
                } else if value == 2 {
                    "audio"
                } else if value == 3 {
                    "complex"
                } else if value == 16 {
                    "logo"
                } else if value == 17 {
                    "subtitle"
                } else if value == 18 {
                    "buttons"
                } else if value == 32 {
                    "control"
                } else if value == 33 {
                    "metadata"
                } else {
                    ""
                }
            },
            Id::FlagInterlaced => {
                if value == 0 {
                    "undetermined"
                } else if value == 1 {
                    "interlaced"
                } else if value == 2 {
                    "progressive"
                } else {
                    ""
                }
            },
            Id::StereoMode => {
                if value == 0 {
                    "mono"
                } else if value == 1 {
                    "side by side (left eye first)"
                } else if value == 2 {
                    "top - bottom (right eye is first)"
                } else if value == 3 {
                    "top - bottom (left eye is first)"
                } else if value == 4 {
                    "checkboard (right eye is first)"
                } else if value == 5 {
                    "checkboard (left eye is first)"
                } else if value == 6 {
                    "row interleaved (right eye is first)"
                } else if value == 7 {
                    "row interleaved (left eye is first)"
                } else if value == 8 {
                    "column interleaved (right eye is first)"
                } else if value == 9 {
                    "column interleaved (left eye is first)"
                } else if value == 10 {
                    "anaglyph (cyan/red)"
                } else if value == 11 {
                    "side by side (right eye first)"
                } else if value == 12 {
                    "anaglyph (green/magenta)"
                } else if value == 13 {
                    "both eyes laced in one Block (left eye is first)"
                } else if value == 14 {
                    "both eyes laced in one Block (right eye is first)"
                } else {
                    ""
                }
            },
            Id::AlphaMode => {
                if value == 0 {
                    "none"
                } else if value == 1 {
                    "present"
                } else {
                    ""
                }
            },
            Id::DisplayUnit => {
                if value == 0 {
                    "pixels"
                } else if value == 1 {
                    "centimeters"
                } else if value == 2 {
                    "inches"
                } else if value == 3 {
                    "display aspect ratio"
                } else if value == 4 {
                    "unknown"
                } else {
                    ""
                }
            },
            Id::AspectRatioType => {
                if value == 0 {
                    "free resizing"
                } else if value == 1 {
                    "keep aspect ratio"
                } else if value == 2 {
                    "fixed"
                } else {
                    ""
                }
            },
            Id::MatrixCoefficients => {
                if value == 0 {
                    "Identity"
                } else if value == 1 {
                    "ITU-R BT.709"
                } else if value == 2 {
                    "unspecified"
                } else if value == 3 {
                    "reserved"
                } else if value == 4 {
                    "US FCC 73.682"
                } else if value == 5 {
                    "ITU-R BT.470BG"
                } else if value == 6 {
                    "SMPTE 170M"
                } else if value == 7 {
                    "SMPTE 240M"
                } else if value == 8 {
                    "YCoCg"
                } else if value == 9 {
                    "BT2020 Non-constant Luminance"
                } else if value == 10 {
                    "BT2020 Constant Luminance"
                } else if value == 11 {
                    "SMPTE ST 2085"
                } else if value == 12 {
                    "Chroma-derived Non-constant Luminance"
                } else if value == 13 {
                    "Chroma-derived Constant Luminance"
                } else if value == 14 {
                    "ITU-R BT.2100-0"
                } else {
                    ""
                }
            },
            Id::ChromaSitingHorz => {
                if value == 0 {
                    "unspecified"
                } else if value == 1 {
                    "left collocated"
                } else if value == 2 {
                    "half"
                } else {
                    ""
                }
            },
            Id::ChromaSitingVert => {
                if value == 0 {
                    "unspecified"
                } else if value == 1 {
                    "top collocated"
                } else if value == 2 {
                    "half"
                } else {
                    ""
                }
            },
            Id::Range => {
                if value == 0 {
                    "unspecified"
                } else if value == 1 {
                    "broadcast range"
                } else if value == 2 {
                    "full range (no clipping)"
                } else if value == 3 {
                    "defined by MatrixCoefficients / TransferCharacteristics"
                } else {
                    ""
                }
            },
            Id::ProjectionType => {
                if value == 0 {
                    "rectangular"
                } else if value == 1 {
                    "equirectangular"
                } else if value == 2 {
                    "cubemap"
                } else if value == 3 {
                    "mesh"
                } else {
                    ""
                }
            },
            Id::ContentEncodingScope => {
                if value == 1 {
                    "Block"
                } else if value == 2 {
                    "Private"
                } else if value == 4 {
                    "Next"
                } else {
                    ""
                }
            },
            Id::ContentEncodingType => {
                if value == 0 {
                    "Compression"
                } else if value == 1 {
                    "Encryption"
                } else {
                    ""
                }
            },
            Id::ContentCompAlgo => {
                if value == 0 {
                    "zlib"
                } else if value == 1 {
                    "bzlib"
                } else if value == 2 {
                    "lzo1x"
                } else if value == 3 {
                    "Header Stripping"
                } else {
                    ""
                }
            },
            Id::ContentEncAlgo => {
                if value == 0 {
                    "Not encrypted"
                } else if value == 1 {
                    "DES"
                } else if value == 2 {
                    "3DES"
                } else if value == 3 {
                    "Twofish"
                } else if value == 4 {
                    "Blowfish"
                } else if value == 5 {
                    "AES"
                } else {
                    ""
                }
            },
            Id::AesSettingsCipherMode => {
                if value == 1 {
                    "AES-CTR"
                } else if value == 2 {
                    "AES-CBC"
                } else {
                    ""
                }
            },
            Id::TargetTypeValue => {
                if value == 70 {
                    "COLLECTION"
                } else if value == 60 {
                    "EDITION / ISSUE / VOLUME / OPUS / SEASON / SEQUEL"
                } else if value == 50 {
                    "ALBUM / OPERA / CONCERT / MOVIE / EPISODE"
                } else if value == 40 {
                    "PART / SESSION"
                } else if value == 30 {
                    "TRACK / SONG / CHAPTER"
                } else if value == 20 {
                    "SUBTRACK / MOVEMENT / SCENE"
                } else if value == 10 {
                    "SHOT"
                } else {
                    ""
                }
            },
            _ => "",
        }
    }

    /// The member of the enumeration of `id` whose schema label is `label`.
    pub fn from_original_label(id: &Id, label: &str) -> (r: Option<Enumeration>)
        ensures
            r == (match value_of_wire_label(*id, label@) {
                Some(v) => Some(Enumeration { id: *id, value: v }),
                None => None,
            }),
    {
        let found: Option<u64> = match id {
            Id::TrackType => {
                if same_text(label, "video") {
                    Some(1)
                } else if same_text(label, "audio") {
                    Some(2)
                } else if same_text(label, "complex") {
                    Some(3)
                } else if same_text(label, "logo") {
                    Some(16)
                } else if same_text(label, "subtitle") {
                    Some(17)
                } else if same_text(label, "buttons") {
                    Some(18)
                } else if same_text(label, "control") {
                    Some(32)
                } else if same_text(label, "metadata") {
                    Some(33)
                } else {
                    None
                }
            },
            Id::FlagInterlaced => {
                if same_text(label, "undetermined") {
                    Some(0)
                } else if same_text(label, "interlaced") {
                    Some(1)
                } else if same_text(label, "progressive") {
                    Some(2)
                } else {
                    None
                }
            },
            Id::StereoMode => {
                if same_text(label, "mono") {
                    Some(0)
                } else if same_text(label, "side by side (left eye first)") {
                    Some(1)
                } else if same_text(label, "top - bottom (right eye is first)") {
                    Some(2)
                } else if same_text(label, "top - bottom (left eye is first)") {
                    Some(3)
                } else if same_text(label, "checkboard (right eye is first)") {
                    Some(4)
                } else if same_text(label, "checkboard (left eye is first)") {
                    Some(5)
                } else if same_text(label, "row interleaved (right eye is first)") {
                    Some(6)
                } else if same_text(label, "row interleaved (left eye is first)") {
                    Some(7)
                } else if same_text(label, "column interleaved (right eye is first)") {
                    Some(8)
                } else if same_text(label, "column interleaved (left eye is first)") {
                    Some(9)
                } else if same_text(label, "anaglyph (cyan/red)") {
                    Some(10)
                } else if same_text(label, "side by side (right eye first)") {
                    Some(11)
                } else if same_text(label, "anaglyph (green/magenta)") {
                    Some(12)
                } else if same_text(label, "both eyes laced in one Block (left eye is first)") {
                    Some(13)
                } else if same_text(label, "both eyes laced in one Block (right eye is first)") {
                    Some(14)
                } else {
                    None
                }
            },
            Id::AlphaMode => {
                if same_text(label, "none") {
                    Some(0)
                } else if same_text(label, "present") {
                    Some(1)
                } else {
                    None
                }
            },
            Id::DisplayUnit => {
                if same_text(label, "pixels") {
                    Some(0)
                } else if same_text(label, "centimeters") {
                    Some(1)
                } else if same_text(label, "inches") {
                    Some(2)
                } else if same_text(label, "display aspect ratio") {
                    Some(3)
                } else if same_text(label, "unknown") {
                    Some(4)
                } else {
                    None
                }
            },
            Id::AspectRatioType => {
                if same_text(label, "free resizing") {
                    Some(0)
                } else if same_text(label, "keep aspect ratio") {
                    Some(1)
                } else if same_text(label, "fixed") {
                    Some(2)
                } else {
                    None
                }
            },
            Id::MatrixCoefficients => {
                if same_text(label, "Identity") {
                    Some(0)
                } else if same_text(label, "ITU-R BT.709") {
                    Some(1)
                } else if same_text(label, "unspecified") {
                    Some(2)
                } else if same_text(label, "reserved") {
                    Some(3)
                } else if same_text(label, "US FCC 73.682") {
                    Some(4)
                } else if same_text(label, "ITU-R BT.470BG") {
                    Some(5)
                } else if same_text(label, "SMPTE 170M") {
                    Some(6)
                } else if same_text(label, "SMPTE 240M") {
                    Some(7)
                } else if same_text(label, "YCoCg") {
                    Some(8)
                } else if same_text(label, "BT2020 Non-constant Luminance") {
                    Some(9)
                } else if same_text(label, "BT2020 Constant Luminance") {
                    Some(10)
                } else if same_text(label, "SMPTE ST 2085") {
                    Some(11)
                } else if same_text(label, "Chroma-derived Non-constant Luminance") {
                    Some(12)
                } else if same_text(label, "Chroma-derived Constant Luminance") {
                    Some(13)
                } else if same_text(label, "ITU-R BT.2100-0") {
                    Some(14)
                } else {
                    None
                }
            },
            Id::ChromaSitingHorz => {
                if same_text(label, "unspecified") {
                    Some(0)
                } else if same_text(label, "left collocated") {
                    Some(1)
                } else if same_text(label, "half") {
                    Some(2)
                } else {
                    None
                }
            },
            Id::ChromaSitingVert => {
                if same_text(label, "unspecified") {
                    Some(0)
                } else if same_text(label, "top collocated") {
                    Some(1)
                } else if same_text(label, "half") {
                    Some(2)
                } else {
                    None
                }
            },
            Id::Range => {
                if same_text(label, "unspecified") {
                    Some(0)
                } else if same_text(label, "broadcast range") {
                    Some(1)
                } else if same_text(label, "full range (no clipping)") {
                    Some(2)
                } else if same_text(label, "defined by MatrixCoefficients / TransferCharacteristics") {
                    Some(3)
                } else {
                    None
                }
            },
            Id::ProjectionType => {
                if same_text(label, "rectangular") {
                    Some(0)
                } else if same_text(label, "equirectangular") {
                    Some(1)
                } else if same_text(label, "cubemap") {
                    Some(2)
                } else if same_text(label, "mesh") {
                    Some(3)
                } else {
                    None
                }
            },
            Id::ContentEncodingScope => {
                if same_text(label, "Block") {
                    Some(1)
                } else if same_text(label, "Private") {
                    Some(2)
                } else if same_text(label, "Next") {
                    Some(4)
                } else {
                    None
                }
            },
            Id::ContentEncodingType => {
                if same_text(label, "Compression") {
                    Some(0)
                } else if same_text(label, "Encryption") {
                    Some(1)
                } else {
                    None
                }
            },
            Id::ContentCompAlgo => {
                if same_text(label, "zlib") {
                    Some(0)
                } else if same_text(label, "bzlib") {
                    Some(1)
                } else if same_text(label, "lzo1x") {
                    Some(2)
                } else if same_text(label, "Header Stripping") {
                    Some(3)
                } else {
                    None
                }
            },
            Id::ContentEncAlgo => {
                if same_text(label, "Not encrypted") {
                    Some(0)
                } else if same_text(label, "DES") {
                    Some(1)
                } else if same_text(label, "3DES") {
                    Some(2)
                } else if same_text(label, "Twofish") {
                    Some(3)
                } else if same_text(label, "Blowfish") {
                    Some(4)
                } else if same_text(label, "AES") {
                    Some(5)
                } else {
                    None
                }
            },
            Id::AesSettingsCipherMode => {
                if same_text(label, "AES-CTR") {
                    Some(1)
                } else if same_text(label, "AES-CBC") {
                    Some(2)
                } else {
                    None
                }
            },
            Id::TargetTypeValue => {
                if same_text(label, "COLLECTION") {
                    Some(70)
                } else if same_text(label, "EDITION / ISSUE / VOLUME / OPUS / SEASON / SEQUEL") {
                    Some(60)
                } else if same_text(label, "ALBUM / OPERA / CONCERT / MOVIE / EPISODE") {
                    Some(50)
                } else if same_text(label, "PART / SESSION") {
                    Some(40)
                } else if same_text(label, "TRACK / SONG / CHAPTER") {
                    Some(30)
                } else if same_text(label, "SUBTRACK / MOVEMENT / SCENE") {
                    Some(20)
                } else if same_text(label, "SHOT") {
                    Some(10)
                } else {
                    None
                }
            },
            _ => None,
        };
        match found {
            Some(v) => Some(Enumeration { id: *id, value: v }),
            None => None,
        }
    }
}

} // verus!
