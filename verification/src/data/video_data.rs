//! A video that yt-dlp described.
use vstd::prelude::*;

use crate::text::push_str_chars;

verus! {

/// What yt-dlp reports of a single video, as far as the application reads it.
#[derive(Clone, Debug)]
pub struct VideoInfo {
    pub id: String,
    pub title: Option<String>,
    pub channel: Option<String>,
    /// The duration in whole seconds, when yt-dlp gave it as an unsigned integer.
    pub duration: Option<u64>,
}

/// A video ready to be exported.
#[derive(Debug)]
pub struct VideoData {
    title: String,
    url: String,
    author: String,
    duration: u64,
    thumbnail_id: String,
}

/// A video as plain values.
pub struct VideoDataView {
    pub title: Seq<char>,
    pub url: Seq<char>,
    pub author: Seq<char>,
    pub duration: u64,
    pub thumbnail: Seq<char>,
}

impl View for VideoData {
    type V = VideoDataView;

    closed spec fn view(&self) -> VideoDataView {
        VideoDataView {
            title: self.title@,
            url: self.url@,
            author: self.author@,
            duration: self.duration,
            thumbnail: self.thumbnail_id@,
        }
    }
}

/// The watch page of the video with the given id.
pub open spec fn watch_url(id: Seq<char>) -> Seq<char> {
    "https://www.youtube.com/watch?v="@ + id
}

/// The medium-quality thumbnail of the video with the given id.
pub open spec fn thumbnail_url(id: Seq<char>) -> Seq<char> {
    "https://i.ytimg.com/vi/"@ + id + "/mqdefault.jpg"@
}

/// The video that yt-dlp's report describes: it needs a title, a channel and
/// a duration.
pub open spec fn spec_video_from_info(info: VideoInfo) -> Option<VideoDataView> {
    match (info.title, info.channel, info.duration) {
        (Some(title), Some(channel), Some(duration)) => Some(
            VideoDataView {
                title: title@,
                url: watch_url(info.id@),
                author: channel@,
                duration,
                thumbnail: thumbnail_url(info.id@),
            },
        ),
        _ => None,
    }
}

impl Clone for VideoData {
    fn clone(&self) -> (r: Self)
        ensures
            r == *self,
    {
        VideoData {
            title: self.title.clone(),
            url: self.url.clone(),
            author: self.author.clone(),
            duration: self.duration,
            thumbnail_id: self.thumbnail_id.clone(),
        }
    }
}

impl VideoData {
    /// The video's title.
    pub fn title(&self) -> (r: &String)
        ensures
            r@ == self@.title,
    {
        &self.title
    }

    /// The video's watch page.
    pub fn url(&self) -> (r: &String)
        ensures
            r@ == self@.url,
    {
        &self.url
    }

    /// The channel that published the video.
    pub fn author(&self) -> (r: &String)
        ensures
            r@ == self@.author,
    {
        &self.author
    }

    /// The video's length in seconds.
    pub fn duration(&self) -> (r: u64)
        ensures
            r == self@.duration,
    {
        self.duration
    }

    /// The address of the video's thumbnail.
    pub fn thumbnail(&self) -> (r: &String)
        ensures
            r@ == self@.thumbnail,
    {
        &self.thumbnail_id
    }

    /// Whether two videos hold the same values.
    pub fn same(&self, other: &VideoData) -> (r: bool)
        ensures
            r == (self@ == other@),
    {
        self.title == other.title && self.url == other.url && self.author == other.author
            && self.duration == other.duration && self.thumbnail_id == other.thumbnail_id
    }

    /// The video that yt-dlp's report describes, read from a borrowed report.
    pub fn from_info(value: &VideoInfo) -> (r: Option<VideoData>)
        ensures
            match r {
                Some(v) => spec_video_from_info(*value) == Some(v@),
                None => spec_video_from_info(*value) is None,
            },
    {
        let title = match &value.title {
            Some(t) => t.clone(),
            None => return None,
        };
        let author = match &value.channel {
            Some(c) => c.clone(),
            None => return None,
        };
        let duration = match value.duration {
            Some(d) => d,
            None => return None,
        };
        let mut url = String::new();
        push_str_chars(&mut url, "https://www.youtube.com/watch?v=");
        push_str_chars(&mut url, value.id.as_str());
        let mut thumbnail_id = String::new();
        push_str_chars(&mut thumbnail_id, "https://i.ytimg.com/vi/");
        push_str_chars(&mut thumbnail_id, value.id.as_str());
        push_str_chars(&mut thumbnail_id, "/mqdefault.jpg");
        Some(VideoData { title, url, author, duration, thumbnail_id })
    }

    /// The video that yt-dlp's report describes; an error when the report
    /// lacks the title, the channel or the duration.
    pub fn try_from_info(value: VideoInfo) -> (r: Result<VideoData, ()>)
        ensures
            match r {
                Ok(v) => spec_video_from_info(value) == Some(v@),
                Err(_) => spec_video_from_info(value) is None,
            },
    {
        match Self::from_info(&value) {
            Some(v) => Ok(v),
            None => Err(()),
        }
    }
}

} // verus!
