//! The data the application works on: videos, playlists, export settings and
//! the tasks made of them.
pub mod active_task;
pub mod export_type;
pub mod install_state;
pub mod license;
pub mod playlist_data;
pub mod playlist_settings;
pub mod playlist_video_settings;
pub mod task;
pub mod task_queue;
pub mod update_settings;
pub mod video_data;
pub mod video_settings;

pub use active_task::ActiveTask;
pub use export_type::{AudioExtension, ExportType, VideoExtension};
pub use install_state::FfmpegInstallState;
pub use playlist_data::PlaylistData;
pub use playlist_settings::PlaylistExportSettings;
pub use playlist_video_settings::PlaylistVideoSettings;
pub use task::{Task, TaskData};
pub use task_queue::TaskQueue;
pub use video_data::VideoData;
pub use video_settings::VideoExportSettings;
