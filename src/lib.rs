//! Building blocks of a daily card bot: the client side of a two-stage
//! image-generation job service (submit, poll, upscale, poll) expressed as
//! verified state machines, plus the pure formatting of the card it posts.

pub mod card;
pub mod holiday;
pub mod job;
pub mod picture;
pub mod poetry;
pub mod poll;
pub mod save;
pub mod upload;
pub mod weather;
pub mod workflow;

pub use card::{
    day_label, note_description, note_title, today_note_prompt, Article, MessageInfo, News,
    Weekday,
};
pub use holiday::{get_holiday_info, holiday_key, HolidayInfo, HolidayResult};
pub use job::{ImageChangeParams, JobStatus, Midjourney, SubmitImageResult};
pub use picture::{process_image, PictureError, JPEG_QUALITY};
pub use poetry::{get_poetry, poetry_at, Poetry};
pub use poll::{
    is_complete_progress, JobError, PollLoop, PollOutcome, PollStep, INITIAL_DELAY_SECS,
    MAX_CONSECUTIVE_FAILURES, POLL_INTERVAL_SECS,
};
pub use save::{image_file_path, push_saved, SavedResult};
pub use upload::{upload_url, Data, UploadAlreadyHave, UploadResult};
pub use weather::{CityInfo, Forecast, Yesterday};
pub use workflow::{tick_offset_secs, Action, Event, ImageWorkflow, Stage, WorkflowError};
