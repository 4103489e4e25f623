//! The records that the application keeps beside the index. The index
//! knows a record only by its id and its text.

use vstd::prelude::*;

verus! {

/// One observed activity: the window in focus and the text read from it.
#[derive(Clone, Debug)]
pub struct ActivityItem {
    pub timestamp: String,
    pub user_id: String,
    pub window_title: String,
    pub window_app_name: String,
    pub ocr_text: String,
    pub original_ocr_text: String,
    pub interval_length: u32,
    pub os_details: String,
    pub similarity_percentage_to_previous_ocr_text: String,
    pub full_activity_text: String,
    pub editing_mode: String,
    pub keypress_count: u32,
    pub element_tree_dump: String,
    pub detected_actions: String,
}

/// A conversation.
#[derive(Clone, Debug)]
pub struct Chat {
    pub id: i64,
    pub name: String,
    pub created_at: String,
    pub updated_at: String,
}

/// One message of a conversation, as it is stored.
#[derive(Clone, Debug)]
pub struct StoredMessage {
    pub id: i64,
    pub chat_id: i64,
    pub role: String,
    pub content: String,
    pub created_at: String,
}

/// One message of a conversation, as it is sent to a language model.
#[derive(Clone, Debug)]
pub struct Message {
    pub role: String,
    pub content: String,
}

/// The time of a key press.
#[derive(Clone, Debug)]
pub struct KeypressLog {
    pub timestamp: String,
}

/// Whether an application may be observed.
#[derive(Clone, Debug)]
pub struct Permission {
    pub app_path: String,
    pub app_name: String,
    pub icon_path: String,
    pub allow: bool,
}

/// A project and the activities that belong to it.
#[derive(Clone, Debug)]
pub struct Project {
    pub id: i64,
    pub name: String,
    pub activities: Vec<i64>,
    pub activity_ids: Vec<Option<i64>>,
    pub activity_names: Vec<String>,
    pub created_at: String,
}

/// One stored setting.
#[derive(Clone, Debug)]
pub struct Setting {
    pub setting_key: String,
    pub setting_value: String,
}

/// The settings of the application.
#[derive(Clone, Debug)]
pub struct Settings {
    pub is_dev_mode: bool,
    pub interval: String,
    pub auto_start: bool,
    pub api_choice: String,
    pub api_key_claude: String,
    pub api_key_open_ai: String,
}

} // verus!
