//! A playlist that yt-dlp described, with the settings of each of its videos.
use vstd::prelude::*;

use super::playlist_video_settings::{
    settings_after_event, PlaylistVideoSettings, PlaylistVideoSettingsView,
};
use super::video_data::{spec_video_from_info, VideoData, VideoDataView, VideoInfo};
use crate::events::PlaylistVideoSettingsEvent;
use crate::helpers::{is_valid_filename, valid_filename};
use crate::text::push_str_chars;

verus! {

/// What yt-dlp reports of a playlist, as far as the application reads it.
#[derive(Clone, Debug)]
pub struct PlaylistInfo {
    pub title: Option<String>,
    pub id: Option<String>,
    pub uploader: Option<String>,
    /// The address of each thumbnail, in yt-dlp's order.
    pub thumbnails: Option<Vec<Option<String>>>,
    pub entries: Option<Vec<VideoInfo>>,
}

/// A playlist ready to be exported.
#[derive(Debug)]
pub struct PlaylistData {
    title: String,
    url: String,
    creator: String,
    thumbnail_id: String,
    videos: Vec<(VideoData, PlaylistVideoSettings)>,
}

/// One video of a playlist with its settings, as plain values.
pub type PlaylistEntryView = (VideoDataView, PlaylistVideoSettingsView);

/// A playlist as plain values.
pub struct PlaylistDataView {
    pub title: Seq<char>,
    pub url: Seq<char>,
    pub creator: Seq<char>,
    pub thumbnail: Seq<char>,
    pub videos: Seq<PlaylistEntryView>,
}

/// The plain values of the entries of a playlist.
pub open spec fn entries_view(s: Seq<(VideoData, PlaylistVideoSettings)>) -> Seq<PlaylistEntryView> {
    s.map_values(|e: (VideoData, PlaylistVideoSettings)| (e.0@, e.1@))
}

impl View for PlaylistData {
    type V = PlaylistDataView;

    closed spec fn view(&self) -> PlaylistDataView {
        PlaylistDataView {
            title: self.title@,
            url: self.url@,
            creator: self.creator@,
            thumbnail: self.thumbnail_id@,
            videos: entries_view(self.videos@),
        }
    }
}

/// The page of the playlist with the given id.
pub open spec fn playlist_url(id: Seq<char>) -> Seq<char> {
    "https://www.youtube.com/playlist?list="@ + id
}

/// The videos of a playlist: each entry that describes a video, in order, with
/// the settings a newly read video has.
pub open spec fn spec_playlist_videos(entries: Seq<VideoInfo>) -> Seq<PlaylistEntryView>
    decreases entries.len(),
{
    if entries.len() == 0 {
        Seq::empty()
    } else {
        let rest = spec_playlist_videos(entries.drop_last());
        match spec_video_from_info(entries.last()) {
            Some(v) => rest.push(
                (
                    v,
                    PlaylistVideoSettingsView {
                        title: valid_filename(v.title),
                        editing: false,
                        included: true,
                    },
                ),
            ),
            None => rest,
        }
    }
}

/// The playlist that yt-dlp's report describes: it needs a title, an id, an
/// uploader, a last thumbnail with an address, and a list of entries.
pub open spec fn spec_playlist_from_info(info: PlaylistInfo) -> Option<PlaylistDataView> {
    match (info.title, info.id, info.uploader, info.thumbnails, info.entries) {
        (Some(title), Some(id), Some(uploader), Some(thumbs), Some(entries)) => {
            if thumbs@.len() > 0 && thumbs@.last() is Some {
                Some(
                    PlaylistDataView {
                        title: title@,
                        url: playlist_url(id@),
                        creator: uploader@,
                        thumbnail: thumbs@.last()->0@,
                        videos: spec_playlist_videos(entries@),
                    },
                )
            } else {
                None
            }
        },
        _ => None,
    }
}

/// Whether the report has a title, an id and an uploader, and an empty list of
/// thumbnails, so that taking its last thumbnail would step before the start
/// of the list.
pub open spec fn has_empty_thumbnail_list(info: PlaylistInfo) -> bool {
    &&& info.title is Some
    &&& info.id is Some
    &&& info.uploader is Some
    &&& info.thumbnails matches Some(t) && t@.len() == 0
}

/// The number of entries that are exported.
pub open spec fn count_included(s: Seq<PlaylistEntryView>) -> nat
    decreases s.len(),
{
    if s.len() == 0 {
        0
    } else {
        count_included(s.drop_last()) + if s.last().1.included {
            1nat
        } else {
            0nat
        }
    }
}

proof fn lemma_count_included_le(s: Seq<PlaylistEntryView>)
    ensures
        count_included(s) <= s.len(),
    decreases s.len(),
{
    if s.len() > 0 {
        lemma_count_included_le(s.drop_last());
    }
}

impl PlaylistData {
    /// The videos with their settings, in order.
    pub fn iter(&self) -> (r: &[(VideoData, PlaylistVideoSettings)])
        ensures
            entries_view(r@) == self@.videos,
    {
        self.videos.as_slice()
    }

    /// The number of videos.
    pub fn video_count(&self) -> (r: usize)
        ensures
            r == self@.videos.len(),
    {
        self.videos.len()
    }

    /// The number of videos that are exported.
    pub fn active_video_count(&self) -> (r: usize)
        ensures
            r == count_included(self@.videos),
    {
        let mut count: usize = 0;
        let mut i: usize = 0;
        let ghost all = self@.videos;
        while i < self.videos.len()
            invariant
                i <= self.videos@.len(),
                all == entries_view(self.videos@),
                count == count_included(all.take(i as int)),
                count <= i,
            decreases self.videos@.len() - i,
        {
            assert(all.take(i + 1).drop_last() =~= all.take(i as int));
            if self.videos[i].1.included {
                count = count + 1;
            }
            i = i + 1;
        }
        assert(all.take(all.len() as int) =~= all);
        count
    }

    /// The playlist's title.
    pub fn title(&self) -> (r: &String)
        ensures
            r@ == self@.title,
    {
        &self.title
    }

    /// The playlist's page.
    pub fn url(&self) -> (r: &String)
        ensures
            r@ == self@.url,
    {
        &self.url
    }

    /// Who made the playlist.
    pub fn creator(&self) -> (r: &String)
        ensures
            r@ == self@.creator,
    {
        &self.creator
    }

    /// The address of the playlist's thumbnail.
    pub fn thumbnail(&self) -> (r: &String)
        ensures
            r@ == self@.thumbnail,
    {
        &self.thumbnail_id
    }

    /// The video at `index`, with its settings, if there is one.
    pub fn video(&self, index: usize) -> (r: Option<&(VideoData, PlaylistVideoSettings)>)
        ensures
            match r {
                Some(e) => index < self@.videos.len() && (e.0@, e.1@) == self@.videos[index as int],
                None => index >= self@.videos.len(),
            },
    {
        if index < self.videos.len() {
            Some(&self.videos[index])
        } else {
            None
        }
    }

    /// Applies a change to the settings of the video at `index`; nothing
    /// happens when there is no such video.
    pub fn video_event(&mut self, index: usize, event: PlaylistVideoSettingsEvent)
        ensures
            index < old(self)@.videos.len() ==> final(self)@ == (PlaylistDataView {
                videos: old(self)@.videos.update(
                    index as int,
                    (
                        old(self)@.videos[index as int].0,
                        settings_after_event(old(self)@.videos[index as int].1, event),
                    ),
                ),
                ..old(self)@
            }),
            index >= old(self)@.videos.len() ==> final(self)@ == old(self)@,
    {
        if index < self.videos.len() {
            let ghost before = self.videos@;
            let mut entry = self.videos.remove(index);
            entry.1.event(event);
            self.videos.insert(index, entry);
            assert(entries_view(self.videos@) =~= entries_view(before).update(
                index as int,
                (entries_view(before)[index as int].0, entry.1@),
            ));
        }
    }

    /// Whether two playlists hold the same values.
    pub fn same(&self, other: &PlaylistData) -> (r: bool)
        ensures
            r == (self@ == other@),
    {
        if !(self.title == other.title && self.url == other.url && self.creator == other.creator
            && self.thumbnail_id == other.thumbnail_id) {
            return false;
        }
        if self.videos.len() != other.videos.len() {
            assert(self@.videos.len() != other@.videos.len());
            return false;
        }
        let mut i: usize = 0;
        while i < self.videos.len()
            invariant
                i <= self.videos@.len() == other.videos@.len(),
                forall|j: int|
                    0 <= j < i ==> entries_view(self.videos@)[j] == entries_view(other.videos@)[j],
            decreases self.videos@.len() - i,
        {
            let a = &self.videos[i];
            let b = &other.videos[i];
            if !(a.0.same(&b.0) && a.1.title == b.1.title && a.1.editing == b.1.editing
                && a.1.included == b.1.included) {
                assert(entries_view(self.videos@)[i as int] != entries_view(other.videos@)[i as int]);
                return false;
            }
            i = i + 1;
        }
        assert(entries_view(self.videos@) =~= entries_view(other.videos@));
        true
    }

    /// The playlist that yt-dlp's report describes; an error when the report
    /// lacks the title, the id, the uploader, a last thumbnail with an address,
    /// or the list of entries. Entries that do not describe a video are left out.
    /// A report with a title, an id and an uploader must not have an empty list
    /// of thumbnails: looking for its last thumbnail fails there.
    pub fn try_from_info(value: PlaylistInfo) -> (r: Result<PlaylistData, ()>)
        requires
            !has_empty_thumbnail_list(value),
        ensures
            match r {
                Ok(p) => spec_playlist_from_info(value) == Some(p@),
                Err(_) => spec_playlist_from_info(value) is None,
            },
    {
        let ghost info = value;
        let PlaylistInfo { title, id, uploader, thumbnails, entries } = value;
        let title = match title {
            Some(t) => t,
            None => return Err(()),
        };
        let id = match id {
            Some(i) => i,
            None => return Err(()),
        };
        let creator = match uploader {
            Some(u) => u,
            None => return Err(()),
        };
        let mut thumbs = match thumbnails {
            Some(t) => t,
            None => return Err(()),
        };
        let thumbnail_id = match thumbs.pop() {
            Some(Some(url)) => url,
            _ => return Err(()),
        };
        let entries = match entries {
            Some(e) => e,
            None => return Err(()),
        };
        let mut url = String::new();
        push_str_chars(&mut url, "https://www.youtube.com/playlist?list=");
        push_str_chars(&mut url, id.as_str());
        let mut videos: Vec<(VideoData, PlaylistVideoSettings)> = Vec::new();
        let mut i: usize = 0;
        while i < entries.len()
            invariant
                i <= entries@.len(),
                entries_view(videos@) == spec_playlist_videos(entries@.take(i as int)),
            decreases entries@.len() - i,
        {
            let ghost before = videos@;
            assert(entries@.take(i + 1).drop_last() =~= entries@.take(i as int));
            let info_i = &entries[i];
            match VideoData::from_info(info_i) {
                Some(v) => {
                    let settings = PlaylistVideoSettings::new(info_i.title.clone().unwrap());
                    videos.push((v, settings));
                    assert(entries_view(videos@) =~= entries_view(before).push((v@, settings@)));
                },
                None => {},
            }
            i = i + 1;
        }
        assert(entries@.take(entries@.len() as int) =~= entries@);
        Ok(PlaylistData { title, url, creator, thumbnail_id, videos })
    }
}

impl Clone for PlaylistData {
    fn clone(&self) -> (r: Self)
        ensures
            r@ == self@,
    {
        let mut videos: Vec<(VideoData, PlaylistVideoSettings)> = Vec::new();
        let mut i: usize = 0;
        while i < self.videos.len()
            invariant
                i <= self.videos@.len(),
                entries_view(videos@) == entries_view(self.videos@).take(i as int),
            decreases self.videos@.len() - i,
        {
            let ghost before = videos@;
            let e = &self.videos[i];
            let c = (e.0.clone(), e.1.clone());
            assert((c.0@, c.1@) == entries_view(self.videos@)[i as int]);
            videos.push(c);
            assert(entries_view(videos@) =~= entries_view(before).push((c.0@, c.1@)));
            assert(entries_view(videos@) =~= entries_view(self.videos@).take(i + 1));
            i = i + 1;
        }
        assert(entries_view(self.videos@).take(self.videos@.len() as int) =~= entries_view(
            self.videos@,
        ));
        PlaylistData {
            title: self.title.clone(),
            url: self.url.clone(),
            creator: self.creator.clone(),
            thumbnail_id: self.thumbnail_id.clone(),
            videos,
        }
    }
}

/// A playlist never exports more videos than it has, and changing the
/// settings of one video leaves the number of videos as it was.
pub proof fn law_playlist_counts(p: PlaylistDataView, index: int, event: PlaylistVideoSettingsEvent)
    requires
        0 <= index < p.videos.len(),
    ensures
        count_included(p.videos) <= p.videos.len(),
        p.videos.update(index, (p.videos[index].0, settings_after_event(p.videos[index].1, event))).len()
            == p.videos.len(),
{
    lemma_count_included_le(p.videos);
}

/// Every video of a playlist read from yt-dlp's report has a title that is a
/// valid file name, and changing a video's settings keeps every title valid.
pub proof fn law_playlist_titles_valid(
    info: PlaylistInfo,
    p: PlaylistDataView,
    index: int,
    event: PlaylistVideoSettingsEvent,
)
    ensures
        spec_playlist_from_info(info) matches Some(q) ==> forall|i: int|
            0 <= i < q.videos.len() ==> is_valid_filename(#[trigger] q.videos[i].1.title),
        (forall|i: int| 0 <= i < p.videos.len() ==> is_valid_filename(#[trigger] p.videos[i].1.title))
            && 0 <= index < p.videos.len() ==> forall|i: int|
            0 <= i < p.videos.len() ==> is_valid_filename(
                #[trigger] p.videos.update(
                    index,
                    (p.videos[index].0, settings_after_event(p.videos[index].1, event)),
                )[i].1.title,
            ),
{
    match (info.title, info.id, info.uploader, info.thumbnails, info.entries) {
        (Some(_), Some(_), Some(_), Some(_), Some(entries)) => lemma_read_titles_valid(entries@),
        _ => {},
    }
    if 0 <= index < p.videos.len() {
        super::playlist_video_settings::law_title_stays_valid(
            Seq::empty(),
            p.videos[index].1,
            event,
        );
    }
}

proof fn lemma_read_titles_valid(entries: Seq<VideoInfo>)
    ensures
        forall|i: int|
            0 <= i < spec_playlist_videos(entries).len() ==> is_valid_filename(
                #[trigger] spec_playlist_videos(entries)[i].1.title,
            ),
    decreases entries.len(),
{
    if entries.len() > 0 {
        let rest = spec_playlist_videos(entries.drop_last());
        lemma_read_titles_valid(entries.drop_last());
        match spec_video_from_info(entries.last()) {
            Some(v) => {
                crate::helpers::law_valid_filename(v.title);
                let all = spec_playlist_videos(entries);
                assert forall|i: int| 0 <= i < all.len() implies is_valid_filename(
                    #[trigger] all[i].1.title,
                ) by {
                    if i < rest.len() {
                        assert(all[i] == rest[i]);
                    }
                }
            },
            None => {},
        }
    }
}

} // verus!
