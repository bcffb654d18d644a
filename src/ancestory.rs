use vstd::prelude::*;

use crate::elements::Id;

verus! {

/// The chain of master elements, outermost first, that a WebM element stands
/// in; `None` for elements whose place is not fixed.
pub open spec fn ancestry_of(id: Id) -> Option<Seq<Id>> {
    match id {
        Id::EbmlVersion | Id::EbmlReadVersion | Id::EbmlMaxIdLength | Id::EbmlMaxSizeLength | Id::DocType | Id::DocTypeVersion | Id::DocTypeReadVersion => Some(seq![Id::Ebml]),
        Id::SeekHead | Id::Info | Id::Cluster | Id::Tracks | Id::Cues | Id::Chapters | Id::Tags => Some(seq![Id::Segment]),
        Id::Seek => Some(seq![Id::Segment, Id::SeekHead]),
        Id::SeekId | Id::SeekPosition => Some(seq![Id::Segment, Id::SeekHead, Id::Seek]),
        Id::TimecodeScale | Id::Duration | Id::DateUtc | Id::Title | Id::MuxingApp | Id::WritingApp => Some(seq![Id::Segment, Id::Info]),
        Id::Timecode | Id::PrevSize | Id::SimpleBlock | Id::BlockGroup => Some(seq![Id::Segment, Id::Cluster]),
        Id::Block | Id::BlockVirtual | Id::BlockAdditions | Id::BlockDuration | Id::ReferenceBlock | Id::DiscardPadding | Id::Slices => Some(seq![Id::Segment, Id::Cluster, Id::BlockGroup]),
        Id::BlockMore => Some(seq![Id::Segment, Id::Cluster, Id::BlockGroup, Id::BlockAdditions]),
        Id::BlockAddId | Id::BlockAdditional => Some(seq![Id::Segment, Id::Cluster, Id::BlockGroup, Id::BlockAdditions, Id::BlockMore]),
        Id::TimeSlice => Some(seq![Id::Segment, Id::Cluster, Id::BlockGroup, Id::Slices]),
        Id::LaceNumber => Some(seq![Id::Segment, Id::Cluster, Id::BlockGroup, Id::Slices, Id::TimeSlice]),
        Id::TrackEntry => Some(seq![Id::Segment, Id::Tracks]),
        Id::TrackNumber | Id::TrackUid | Id::TrackType | Id::FlagEnabled | Id::FlagDefault | Id::FlagForced | Id::FlagLacing | Id::DefaultDuration | Id::Name | Id::Language | Id::CodecId | Id::CodecPrivate | Id::CodecName | Id::CodecDelay | Id::SeekPreRoll | Id::Video | Id::Audio | Id::ContentEncodings => Some(seq![Id::Segment, Id::Tracks, Id::TrackEntry]),
        Id::FlagInterlaced | Id::StereoMode | Id::AlphaMode | Id::PixelWidth | Id::PixelHeight | Id::PixelCropBottom | Id::PixelCropTop | Id::PixelCropLeft | Id::PixelCropRight | Id::DisplayWidth | Id::DisplayHeight | Id::DisplayUnit | Id::AspectRatioType | Id::FrameRate => Some(seq![Id::Segment, Id::Tracks, Id::TrackEntry, Id::Video]),
        Id::SamplingFrequency | Id::OutputSamplingFrequency | Id::Channels | Id::BitDepth => Some(seq![Id::Segment, Id::Tracks, Id::TrackEntry, Id::Audio]),
        Id::ContentEncoding => Some(seq![Id::Segment, Id::Tracks, Id::TrackEntry, Id::ContentEncodings]),
        Id::ContentEncodingOrder | Id::ContentEncodingScope | Id::ContentEncodingType | Id::ContentEncryption => Some(seq![Id::Segment, Id::Tracks, Id::TrackEntry, Id::ContentEncodings, Id::ContentEncoding]),
        Id::ContentEncAlgo | Id::ContentEncKeyId | Id::ContentEncAesSettings => Some(seq![Id::Segment, Id::Tracks, Id::TrackEntry, Id::ContentEncodings, Id::ContentEncoding, Id::ContentEncryption]),
        Id::AesSettingsCipherMode => Some(seq![Id::Segment, Id::Tracks, Id::TrackEntry, Id::ContentEncodings, Id::ContentEncoding, Id::ContentEncryption, Id::ContentEncAesSettings]),
        Id::CuePoint => Some(seq![Id::Segment, Id::Cues]),
        Id::CueTime | Id::CueTrackPositions => Some(seq![Id::Segment, Id::Cues, Id::CuePoint]),
        Id::CueTrack | Id::CueClusterPosition | Id::CueRelativePosition | Id::CueDuration | Id::CueBlockNumber => Some(seq![Id::Segment, Id::Cues, Id::CuePoint, Id::CueTrackPositions]),
        Id::EditionEntry => Some(seq![Id::Segment, Id::Chapters]),
        Id::ChapterAtom => Some(seq![Id::Segment, Id::Chapters, Id::EditionEntry]),
        Id::ChapterUid | Id::ChapterStringUid | Id::ChapterTimeStart | Id::ChapterTimeEnd | Id::ChapterDisplay => Some(seq![Id::Segment, Id::Chapters, Id::EditionEntry, Id::ChapterAtom]),
        Id::ChapString | Id::ChapLanguage | Id::ChapCountry => Some(seq![Id::Segment, Id::Chapters, Id::EditionEntry, Id::ChapterAtom, Id::ChapterDisplay]),
        Id::Tag => Some(seq![Id::Segment, Id::Tags]),
        Id::Targets | Id::SimpleTag => Some(seq![Id::Segment, Id::Tags, Id::Tag]),
        Id::TargetTypeValue | Id::TargetType | Id::TagTrackUid => Some(seq![Id::Segment, Id::Tags, Id::Tag, Id::Targets]),
        Id::TagName | Id::TagLanguage | Id::TagDefault | Id::TagString | Id::TagBinary => Some(seq![Id::Segment, Id::Tags, Id::Tag, Id::SimpleTag]),
        Id::Ebml | Id::Segment => Some(seq![]),
        _ => None,
    }
}

/// The masters that enclose an element, outermost first.
#[derive(Debug)]
pub struct Ancestory {
    ancestory: Vec<Id>,
}

impl View for Ancestory {
    type V = Seq<Id>;

    closed spec fn view(&self) -> Seq<Id> {
        self.ancestory@
    }
}

impl Ancestory {
    /// The ancestry of an element whose place is fixed.
    pub fn by_id(id: Id) -> (r: Option<Ancestory>)
        ensures
            r is Some <==> ancestry_of(id) is Some,
            r matches Some(a) ==> ancestry_of(id) == Some(a@),
    {
        let path: Vec<Id> = match id {
            Id::EbmlVersion | Id::EbmlReadVersion | Id::EbmlMaxIdLength | Id::EbmlMaxSizeLength | Id::DocType | Id::DocTypeVersion | Id::DocTypeReadVersion => vec![Id::Ebml],
            Id::SeekHead | Id::Info | Id::Cluster | Id::Tracks | Id::Cues | Id::Chapters | Id::Tags => vec![Id::Segment],
            Id::Seek => vec![Id::Segment, Id::SeekHead],
            Id::SeekId | Id::SeekPosition => vec![Id::Segment, Id::SeekHead, Id::Seek],
            Id::TimecodeScale | Id::Duration | Id::DateUtc | Id::Title | Id::MuxingApp | Id::WritingApp => vec![Id::Segment, Id::Info],
            Id::Timecode | Id::PrevSize | Id::SimpleBlock | Id::BlockGroup => vec![Id::Segment, Id::Cluster],
            Id::Block | Id::BlockVirtual | Id::BlockAdditions | Id::BlockDuration | Id::ReferenceBlock | Id::DiscardPadding | Id::Slices => vec![Id::Segment, Id::Cluster, Id::BlockGroup],
            Id::BlockMore => vec![Id::Segment, Id::Cluster, Id::BlockGroup, Id::BlockAdditions],
            Id::BlockAddId | Id::BlockAdditional => vec![Id::Segment, Id::Cluster, Id::BlockGroup, Id::BlockAdditions, Id::BlockMore],
            Id::TimeSlice => vec![Id::Segment, Id::Cluster, Id::BlockGroup, Id::Slices],
            Id::LaceNumber => vec![Id::Segment, Id::Cluster, Id::BlockGroup, Id::Slices, Id::TimeSlice],
            Id::TrackEntry => vec![Id::Segment, Id::Tracks],
            Id::TrackNumber | Id::TrackUid | Id::TrackType | Id::FlagEnabled | Id::FlagDefault | Id::FlagForced | Id::FlagLacing | Id::DefaultDuration | Id::Name | Id::Language | Id::CodecId | Id::CodecPrivate | Id::CodecName | Id::CodecDelay | Id::SeekPreRoll | Id::Video | Id::Audio | Id::ContentEncodings => vec![Id::Segment, Id::Tracks, Id::TrackEntry],
            Id::FlagInterlaced | Id::StereoMode | Id::AlphaMode | Id::PixelWidth | Id::PixelHeight | Id::PixelCropBottom | Id::PixelCropTop | Id::PixelCropLeft | Id::PixelCropRight | Id::DisplayWidth | Id::DisplayHeight | Id::DisplayUnit | Id::AspectRatioType | Id::FrameRate => vec![Id::Segment, Id::Tracks, Id::TrackEntry, Id::Video],
            Id::SamplingFrequency | Id::OutputSamplingFrequency | Id::Channels | Id::BitDepth => vec![Id::Segment, Id::Tracks, Id::TrackEntry, Id::Audio],
            Id::ContentEncoding => vec![Id::Segment, Id::Tracks, Id::TrackEntry, Id::ContentEncodings],
            Id::ContentEncodingOrder | Id::ContentEncodingScope | Id::ContentEncodingType | Id::ContentEncryption => vec![Id::Segment, Id::Tracks, Id::TrackEntry, Id::ContentEncodings, Id::ContentEncoding],
            Id::ContentEncAlgo | Id::ContentEncKeyId | Id::ContentEncAesSettings => vec![Id::Segment, Id::Tracks, Id::TrackEntry, Id::ContentEncodings, Id::ContentEncoding, Id::ContentEncryption],
            Id::AesSettingsCipherMode => vec![Id::Segment, Id::Tracks, Id::TrackEntry, Id::ContentEncodings, Id::ContentEncoding, Id::ContentEncryption, Id::ContentEncAesSettings],
            Id::CuePoint => vec![Id::Segment, Id::Cues],
            Id::CueTime | Id::CueTrackPositions => vec![Id::Segment, Id::Cues, Id::CuePoint],
            Id::CueTrack | Id::CueClusterPosition | Id::CueRelativePosition | Id::CueDuration | Id::CueBlockNumber => vec![Id::Segment, Id::Cues, Id::CuePoint, Id::CueTrackPositions],
            Id::EditionEntry => vec![Id::Segment, Id::Chapters],
            Id::ChapterAtom => vec![Id::Segment, Id::Chapters, Id::EditionEntry],
            Id::ChapterUid | Id::ChapterStringUid | Id::ChapterTimeStart | Id::ChapterTimeEnd | Id::ChapterDisplay => vec![Id::Segment, Id::Chapters, Id::EditionEntry, Id::ChapterAtom],
            Id::ChapString | Id::ChapLanguage | Id::ChapCountry => vec![Id::Segment, Id::Chapters, Id::EditionEntry, Id::ChapterAtom, Id::ChapterDisplay],
            Id::Tag => vec![Id::Segment, Id::Tags],
            Id::Targets | Id::SimpleTag => vec![Id::Segment, Id::Tags, Id::Tag],
            Id::TargetTypeValue | Id::TargetType | Id::TagTrackUid => vec![Id::Segment, Id::Tags, Id::Tag, Id::Targets],
            Id::TagName | Id::TagLanguage | Id::TagDefault | Id::TagString | Id::TagBinary => vec![Id::Segment, Id::Tags, Id::Tag, Id::SimpleTag],
            Id::Ebml | Id::Segment => vec![],
            _ => return None,
        };
        proof {
            assert(path@ =~= ancestry_of(id).unwrap());
        }
        Some(Ancestory::new(path))
    }

    /// The ancestry below the outermost master; `None` when empty.
    pub fn next(&self) -> (r: Option<Ancestory>)
        ensures
            r is Some <==> self@.len() > 0,
            r matches Some(a) ==> a@ == self@.drop_first(),
    {
        if self.ancestory.len() == 0 {
            return None;
        }
        let mut rest: Vec<Id> = Vec::new();
        let mut i: usize = 1;
        while i < self.ancestory.len()
            invariant
                1 <= i <= self.ancestory@.len(),
                rest@ == self.ancestory@.subrange(1, i as int),
            decreases self.ancestory@.len() - i,
        {
            rest.push(self.ancestory[i]);
            i = i + 1;
            assert(rest@ =~= self.ancestory@.subrange(1, i as int));
        }
        Some(Ancestory::new(rest))
    }

    /// The outermost master, if any.
    pub fn id(&self) -> (r: Option<Id>)
        ensures
            r is Some <==> self@.len() > 0,
            r matches Some(i) ==> i == self@[0],
    {
        if self.ancestory.len() == 0 {
            None
        } else {
            Some(self.ancestory[0])
        }
    }

    /// Whether no master is left.
    pub fn is_empty(&self) -> (r: bool)
        ensures
            r <==> self@.len() == 0,
    {
        self.ancestory.len() == 0
    }

    fn new(ancestory: Vec<Id>) -> (r: Ancestory)
        ensures
            r@ == ancestory@,
    {
        Ancestory { ancestory }
    }
}

} // verus!
