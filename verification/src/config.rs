use vstd::prelude::*;

verus! {

/// Where the client gets its data from, and so which site its links point to.
#[derive(Clone, Copy)]
pub enum Provider {
    YouTube,
    Invidious,
}

/// What the channel page reads of the application's configuration and status.
#[derive(Clone)]
pub struct Settings {
    pub provider: Provider,
    /// The address of the Invidious instance, without a trailing slash.
    pub invidious_instance: String,
    /// Lists may show characters beyond ASCII.
    pub allow_unicode: bool,
    /// Thumbnails are shown, so their images are downloaded.
    pub display_images: bool,
}

/// What a key is bound to.
#[derive(Clone, Copy)]
pub enum KeyAction {
    MoveUp,
    MoveDown,
    MoveLeft,
    MoveRight,
    First,
    End,
    Select,
    /// Any binding that the channel page does not handle.
    Other,
}

/// The "type" entry of a framework message.
pub enum MessageType {
    /// The message has no "type" entry.
    Absent,
    /// The entry is not text.
    NotText,
    /// The entry is this text.
    Text(String),
}

/// The start of a link to a video or playlist page.
pub open spec fn site_base(s: Settings) -> Seq<char> {
    match s.provider {
        Provider::YouTube => "https://youtube.com"@,
        Provider::Invidious => s.invidious_instance@,
    }
}

} // verus!
