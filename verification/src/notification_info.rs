//! Push-notification settings of a subscription (`CKNotificationInfo`).
use vstd::prelude::*;

use crate::copying::copy_option;

use crate::payload::CKNotificationInfoPayload;
use crate::text::{
    borrow_opt_text, borrow_opt_texts, copy_opt_text, copy_opt_texts, opt_text_view, opt_texts_view,
    owned, texts_view,
};

verus! {

/// The abstract content of notification settings.
pub struct NotificationInfoView {
    pub alert_body: Option<Seq<char>>,
    pub alert_localization_key: Option<Seq<char>>,
    pub alert_localization_args: Option<Seq<Seq<char>>>,
    pub title: Option<Seq<char>>,
    pub title_localization_key: Option<Seq<char>>,
    pub title_localization_args: Option<Seq<Seq<char>>>,
    pub subtitle: Option<Seq<char>>,
    pub subtitle_localization_key: Option<Seq<char>>,
    pub subtitle_localization_args: Option<Seq<Seq<char>>>,
    pub alert_action_localization_key: Option<Seq<char>>,
    pub alert_launch_image: Option<Seq<char>>,
    pub sound_name: Option<Seq<char>>,
    pub desired_keys: Option<Seq<Seq<char>>>,
    pub should_badge: bool,
    pub should_send_content_available: bool,
    pub should_send_mutable_content: bool,
    pub category: Option<Seq<char>>,
    pub collapse_id_key: Option<Seq<char>>,
}

/// Wraps `CKNotificationInfo`.
#[derive(Debug, PartialEq, Eq, Hash)]
pub struct CKNotificationInfo {
    alert_body: Option<String>,
    alert_localization_key: Option<String>,
    alert_localization_args: Option<Vec<String>>,
    title: Option<String>,
    title_localization_key: Option<String>,
    title_localization_args: Option<Vec<String>>,
    subtitle: Option<String>,
    subtitle_localization_key: Option<String>,
    subtitle_localization_args: Option<Vec<String>>,
    alert_action_localization_key: Option<String>,
    alert_launch_image: Option<String>,
    sound_name: Option<String>,
    desired_keys: Option<Vec<String>>,
    should_badge: bool,
    should_send_content_available: bool,
    should_send_mutable_content: bool,
    category: Option<String>,
    collapse_id_key: Option<String>,
}

impl Clone for CKNotificationInfo {
    fn clone(&self) -> (r: Self)
        ensures
            r@ == self@,
    {
        CKNotificationInfo {
            alert_body: copy_option(&self.alert_body),
            alert_localization_key: copy_option(&self.alert_localization_key),
            alert_localization_args: copy_opt_texts(&self.alert_localization_args),
            title: copy_option(&self.title),
            title_localization_key: copy_option(&self.title_localization_key),
            title_localization_args: copy_opt_texts(&self.title_localization_args),
            subtitle: copy_option(&self.subtitle),
            subtitle_localization_key: copy_option(&self.subtitle_localization_key),
            subtitle_localization_args: copy_opt_texts(&self.subtitle_localization_args),
            alert_action_localization_key: copy_option(&self.alert_action_localization_key),
            alert_launch_image: copy_option(&self.alert_launch_image),
            sound_name: copy_option(&self.sound_name),
            desired_keys: copy_opt_texts(&self.desired_keys),
            should_badge: self.should_badge,
            should_send_content_available: self.should_send_content_available,
            should_send_mutable_content: self.should_send_mutable_content,
            category: copy_option(&self.category),
            collapse_id_key: copy_option(&self.collapse_id_key),
        }
    }
}


impl View for CKNotificationInfo {
    type V = NotificationInfoView;

    closed spec fn view(&self) -> NotificationInfoView {
        NotificationInfoView {
            alert_body: opt_text_view(self.alert_body),
            alert_localization_key: opt_text_view(self.alert_localization_key),
            alert_localization_args: opt_texts_view(self.alert_localization_args),
            title: opt_text_view(self.title),
            title_localization_key: opt_text_view(self.title_localization_key),
            title_localization_args: opt_texts_view(self.title_localization_args),
            subtitle: opt_text_view(self.subtitle),
            subtitle_localization_key: opt_text_view(self.subtitle_localization_key),
            subtitle_localization_args: opt_texts_view(self.subtitle_localization_args),
            alert_action_localization_key: opt_text_view(self.alert_action_localization_key),
            alert_launch_image: opt_text_view(self.alert_launch_image),
            sound_name: opt_text_view(self.sound_name),
            desired_keys: opt_texts_view(self.desired_keys),
            should_badge: self.should_badge,
            should_send_content_available: self.should_send_content_available,
            should_send_mutable_content: self.should_send_mutable_content,
            category: opt_text_view(self.category),
            collapse_id_key: opt_text_view(self.collapse_id_key),
        }
    }
}

/// The settings of a new `CKNotificationInfo`: nothing set, no badge, no mutable
/// content, and content-available delivery on.
pub open spec fn default_notification_info_view() -> NotificationInfoView {
    NotificationInfoView {
        alert_body: None,
        alert_localization_key: None,
        alert_localization_args: None,
        title: None,
        title_localization_key: None,
        title_localization_args: None,
        subtitle: None,
        subtitle_localization_key: None,
        subtitle_localization_args: None,
        alert_action_localization_key: None,
        alert_launch_image: None,
        sound_name: None,
        desired_keys: None,
        should_badge: false,
        should_send_content_available: true,
        should_send_mutable_content: false,
        category: None,
        collapse_id_key: None,
    }
}

/// The settings that a bridge payload stands for, field for field.
pub open spec fn notification_info_payload_view(p: CKNotificationInfoPayload) -> NotificationInfoView {
    NotificationInfoView {
        alert_body: opt_text_view(p.alert_body),
        alert_localization_key: opt_text_view(p.alert_localization_key),
        alert_localization_args: opt_texts_view(p.alert_localization_args),
        title: opt_text_view(p.title),
        title_localization_key: opt_text_view(p.title_localization_key),
        title_localization_args: opt_texts_view(p.title_localization_args),
        subtitle: opt_text_view(p.subtitle),
        subtitle_localization_key: opt_text_view(p.subtitle_localization_key),
        subtitle_localization_args: opt_texts_view(p.subtitle_localization_args),
        alert_action_localization_key: opt_text_view(p.alert_action_localization_key),
        alert_launch_image: opt_text_view(p.alert_launch_image),
        sound_name: opt_text_view(p.sound_name),
        desired_keys: opt_texts_view(p.desired_keys),
        should_badge: p.should_badge,
        should_send_content_available: p.should_send_content_available,
        should_send_mutable_content: p.should_send_mutable_content,
        category: opt_text_view(p.category),
        collapse_id_key: opt_text_view(p.collapse_id_key),
    }
}

impl Default for CKNotificationInfo {
    fn default() -> (r: Self)
        ensures
            r@ == default_notification_info_view(),
    {
        Self {
            alert_body: None,
            alert_localization_key: None,
            alert_localization_args: None,
            title: None,
            title_localization_key: None,
            title_localization_args: None,
            subtitle: None,
            subtitle_localization_key: None,
            subtitle_localization_args: None,
            alert_action_localization_key: None,
            alert_launch_image: None,
            sound_name: None,
            desired_keys: None,
            should_badge: false,
            should_send_content_available: true,
            should_send_mutable_content: false,
            category: None,
            collapse_id_key: None,
        }
    }
}

impl CKNotificationInfo {
    /// Creates a wrapper mirroring `CKNotificationInfo`.
    pub fn new() -> (r: Self)
        ensures
            r@ == default_notification_info_view(),
    {
        Self::default()
    }

    /// Mirrors `CKNotificationInfo.alertBody`.
    pub fn alert_body(&self) -> (r: Option<&str>)
        ensures
            r is Some <==> self@.alert_body is Some,
            r is Some ==> r->0@ == self@.alert_body->0,
    {
        borrow_opt_text(&self.alert_body)
    }

    /// Mirrors `CKNotificationInfo.alertLocalizationKey`.
    pub fn alert_localization_key(&self) -> (r: Option<&str>)
        ensures
            r is Some <==> self@.alert_localization_key is Some,
            r is Some ==> r->0@ == self@.alert_localization_key->0,
    {
        borrow_opt_text(&self.alert_localization_key)
    }

    /// Mirrors `CKNotificationInfo.alertLocalizationArgs`.
    pub fn alert_localization_args(&self) -> (r: Option<&[String]>)
        ensures
            r is Some <==> self@.alert_localization_args is Some,
            r is Some ==> texts_view(r->0@) == self@.alert_localization_args->0,
    {
        borrow_opt_texts(&self.alert_localization_args)
    }

    /// Mirrors `CKNotificationInfo.title`.
    pub fn title(&self) -> (r: Option<&str>)
        ensures
            r is Some <==> self@.title is Some,
            r is Some ==> r->0@ == self@.title->0,
    {
        borrow_opt_text(&self.title)
    }

    /// Mirrors `CKNotificationInfo.titleLocalizationKey`.
    pub fn title_localization_key(&self) -> (r: Option<&str>)
        ensures
            r is Some <==> self@.title_localization_key is Some,
            r is Some ==> r->0@ == self@.title_localization_key->0,
    {
        borrow_opt_text(&self.title_localization_key)
    }

    /// Mirrors `CKNotificationInfo.titleLocalizationArgs`.
    pub fn title_localization_args(&self) -> (r: Option<&[String]>)
        ensures
            r is Some <==> self@.title_localization_args is Some,
            r is Some ==> texts_view(r->0@) == self@.title_localization_args->0,
    {
        borrow_opt_texts(&self.title_localization_args)
    }

    /// Mirrors `CKNotificationInfo.subtitle`.
    pub fn subtitle(&self) -> (r: Option<&str>)
        ensures
            r is Some <==> self@.subtitle is Some,
            r is Some ==> r->0@ == self@.subtitle->0,
    {
        borrow_opt_text(&self.subtitle)
    }

    /// Mirrors `CKNotificationInfo.subtitleLocalizationKey`.
    pub fn subtitle_localization_key(&self) -> (r: Option<&str>)
        ensures
            r is Some <==> self@.subtitle_localization_key is Some,
            r is Some ==> r->0@ == self@.subtitle_localization_key->0,
    {
        borrow_opt_text(&self.subtitle_localization_key)
    }

    /// Mirrors `CKNotificationInfo.subtitleLocalizationArgs`.
    pub fn subtitle_localization_args(&self) -> (r: Option<&[String]>)
        ensures
            r is Some <==> self@.subtitle_localization_args is Some,
            r is Some ==> texts_view(r->0@) == self@.subtitle_localization_args->0,
    {
        borrow_opt_texts(&self.subtitle_localization_args)
    }

    /// Mirrors `CKNotificationInfo.alertActionLocalizationKey`.
    pub fn alert_action_localization_key(&self) -> (r: Option<&str>)
        ensures
            r is Some <==> self@.alert_action_localization_key is Some,
            r is Some ==> r->0@ == self@.alert_action_localization_key->0,
    {
        borrow_opt_text(&self.alert_action_localization_key)
    }

    /// Mirrors `CKNotificationInfo.alertLaunchImage`.
    pub fn alert_launch_image(&self) -> (r: Option<&str>)
        ensures
            r is Some <==> self@.alert_launch_image is Some,
            r is Some ==> r->0@ == self@.alert_launch_image->0,
    {
        borrow_opt_text(&self.alert_launch_image)
    }

    /// Mirrors `CKNotificationInfo.soundName`.
    pub fn sound_name(&self) -> (r: Option<&str>)
        ensures
            r is Some <==> self@.sound_name is Some,
            r is Some ==> r->0@ == self@.sound_name->0,
    {
        borrow_opt_text(&self.sound_name)
    }

    /// Mirrors `CKNotificationInfo.desiredKeys`.
    pub fn desired_keys(&self) -> (r: Option<&[String]>)
        ensures
            r is Some <==> self@.desired_keys is Some,
            r is Some ==> texts_view(r->0@) == self@.desired_keys->0,
    {
        borrow_opt_texts(&self.desired_keys)
    }

    /// Mirrors `CKNotificationInfo.shouldBadge`.
    pub fn should_badge(&self) -> (r: bool)
        ensures
            r == self@.should_badge,
    {
        self.should_badge
    }

    /// Mirrors `CKNotificationInfo.shouldSendContentAvailable`.
    pub fn should_send_content_available(&self) -> (r: bool)
        ensures
            r == self@.should_send_content_available,
    {
        self.should_send_content_available
    }

    /// Mirrors `CKNotificationInfo.shouldSendMutableContent`.
    pub fn should_send_mutable_content(&self) -> (r: bool)
        ensures
            r == self@.should_send_mutable_content,
    {
        self.should_send_mutable_content
    }

    /// Mirrors `CKNotificationInfo.category`.
    pub fn category(&self) -> (r: Option<&str>)
        ensures
            r is Some <==> self@.category is Some,
            r is Some ==> r->0@ == self@.category->0,
    {
        borrow_opt_text(&self.category)
    }

    /// Mirrors `CKNotificationInfo.collapseIDKey`.
    pub fn collapse_id_key(&self) -> (r: Option<&str>)
        ensures
            r is Some <==> self@.collapse_id_key is Some,
            r is Some ==> r->0@ == self@.collapse_id_key->0,
    {
        borrow_opt_text(&self.collapse_id_key)
    }

    /// Sets the value mirroring `CKNotificationInfo.alertBody`.
    pub fn with_alert_body(self, alert_body: &str) -> (r: Self)
        ensures
            r@ == (NotificationInfoView { alert_body: Some(alert_body@), ..self@ }),
    {
        Self { alert_body: Some(owned(alert_body)), ..self }
    }

    /// Sets the value mirroring `CKNotificationInfo.alertLocalizationKey`.
    pub fn with_alert_localization_key(self, key: &str) -> (r: Self)
        ensures
            r@ == (NotificationInfoView { alert_localization_key: Some(key@), ..self@ }),
    {
        Self { alert_localization_key: Some(owned(key)), ..self }
    }

    /// Sets the value mirroring `CKNotificationInfo.alertLocalizationArgs`.
    pub fn with_alert_localization_args(self, args: Vec<String>) -> (r: Self)
        ensures
            r@ == (NotificationInfoView { alert_localization_args: Some(texts_view(args@)), ..self@ }),
    {
        Self { alert_localization_args: Some(args), ..self }
    }

    /// Sets the value mirroring `CKNotificationInfo.title`.
    pub fn with_title(self, title: &str) -> (r: Self)
        ensures
            r@ == (NotificationInfoView { title: Some(title@), ..self@ }),
    {
        Self { title: Some(owned(title)), ..self }
    }

    /// Sets the value mirroring `CKNotificationInfo.titleLocalizationKey`.
    pub fn with_title_localization_key(self, key: &str) -> (r: Self)
        ensures
            r@ == (NotificationInfoView { title_localization_key: Some(key@), ..self@ }),
    {
        Self { title_localization_key: Some(owned(key)), ..self }
    }

    /// Sets the value mirroring `CKNotificationInfo.titleLocalizationArgs`.
    pub fn with_title_localization_args(self, args: Vec<String>) -> (r: Self)
        ensures
            r@ == (NotificationInfoView { title_localization_args: Some(texts_view(args@)), ..self@ }),
    {
        Self { title_localization_args: Some(args), ..self }
    }

    /// Sets the value mirroring `CKNotificationInfo.subtitle`.
    pub fn with_subtitle(self, subtitle: &str) -> (r: Self)
        ensures
            r@ == (NotificationInfoView { subtitle: Some(subtitle@), ..self@ }),
    {
        Self { subtitle: Some(owned(subtitle)), ..self }
    }

    /// Sets the value mirroring `CKNotificationInfo.subtitleLocalizationKey`.
    pub fn with_subtitle_localization_key(self, key: &str) -> (r: Self)
        ensures
            r@ == (NotificationInfoView { subtitle_localization_key: Some(key@), ..self@ }),
    {
        Self { subtitle_localization_key: Some(owned(key)), ..self }
    }

    /// Sets the value mirroring `CKNotificationInfo.subtitleLocalizationArgs`.
    pub fn with_subtitle_localization_args(self, args: Vec<String>) -> (r: Self)
        ensures
            r@ == (NotificationInfoView { subtitle_localization_args: Some(texts_view(args@)), ..self@ }),
    {
        Self { subtitle_localization_args: Some(args), ..self }
    }

    /// Sets the value mirroring `CKNotificationInfo.alertActionLocalizationKey`.
    pub fn with_alert_action_localization_key(self, key: &str) -> (r: Self)
        ensures
            r@ == (NotificationInfoView { alert_action_localization_key: Some(key@), ..self@ }),
    {
        Self { alert_action_localization_key: Some(owned(key)), ..self }
    }

    /// Sets the value mirroring `CKNotificationInfo.alertLaunchImage`.
    pub fn with_alert_launch_image(self, image: &str) -> (r: Self)
        ensures
            r@ == (NotificationInfoView { alert_launch_image: Some(image@), ..self@ }),
    {
        Self { alert_launch_image: Some(owned(image)), ..self }
    }

    /// Sets the value mirroring `CKNotificationInfo.soundName`.
    pub fn with_sound_name(self, sound_name: &str) -> (r: Self)
        ensures
            r@ == (NotificationInfoView { sound_name: Some(sound_name@), ..self@ }),
    {
        Self { sound_name: Some(owned(sound_name)), ..self }
    }

    /// Sets the value mirroring `CKNotificationInfo.desiredKeys`.
    pub fn with_desired_keys(self, desired_keys: Vec<String>) -> (r: Self)
        ensures
            r@ == (NotificationInfoView { desired_keys: Some(texts_view(desired_keys@)), ..self@ }),
    {
        Self { desired_keys: Some(desired_keys), ..self }
    }

    /// Sets the value mirroring `CKNotificationInfo.shouldBadge`.
    pub fn with_should_badge(self, should_badge: bool) -> (r: Self)
        ensures
            r@ == (NotificationInfoView { should_badge: should_badge, ..self@ }),
    {
        Self { should_badge: should_badge, ..self }
    }

    /// Sets the value mirroring `CKNotificationInfo.shouldSendContentAvailable`.
    pub fn with_content_available(self, should_send_content_available: bool) -> (r: Self)
        ensures
            r@ == (NotificationInfoView { should_send_content_available: should_send_content_available, ..self@ }),
    {
        Self { should_send_content_available: should_send_content_available, ..self }
    }

    /// Sets the value mirroring `CKNotificationInfo.shouldSendMutableContent`.
    pub fn with_mutable_content(self, should_send_mutable_content: bool) -> (r: Self)
        ensures
            r@ == (NotificationInfoView { should_send_mutable_content: should_send_mutable_content, ..self@ }),
    {
        Self { should_send_mutable_content: should_send_mutable_content, ..self }
    }

    /// Sets the value mirroring `CKNotificationInfo.category`.
    pub fn with_category(self, category: &str) -> (r: Self)
        ensures
            r@ == (NotificationInfoView { category: Some(category@), ..self@ }),
    {
        Self { category: Some(owned(category)), ..self }
    }

    /// Sets the value mirroring `CKNotificationInfo.collapseIDKey`.
    pub fn with_collapse_id_key(self, collapse_id_key: &str) -> (r: Self)
        ensures
            r@ == (NotificationInfoView { collapse_id_key: Some(collapse_id_key@), ..self@ }),
    {
        Self { collapse_id_key: Some(owned(collapse_id_key)), ..self }
    }

    /// The settings that a bridge payload stands for, field for field.
    pub fn from_payload(payload: CKNotificationInfoPayload) -> (r: Self)
        ensures
            r@ == notification_info_payload_view(payload),
    {
        Self {
            alert_body: payload.alert_body,
            alert_localization_key: payload.alert_localization_key,
            alert_localization_args: payload.alert_localization_args,
            title: payload.title,
            title_localization_key: payload.title_localization_key,
            title_localization_args: payload.title_localization_args,
            subtitle: payload.subtitle,
            subtitle_localization_key: payload.subtitle_localization_key,
            subtitle_localization_args: payload.subtitle_localization_args,
            alert_action_localization_key: payload.alert_action_localization_key,
            alert_launch_image: payload.alert_launch_image,
            sound_name: payload.sound_name,
            desired_keys: payload.desired_keys,
            should_badge: payload.should_badge,
            should_send_content_available: payload.should_send_content_available,
            should_send_mutable_content: payload.should_send_mutable_content,
            category: payload.category,
            collapse_id_key: payload.collapse_id_key,
        }
    }

    /// The bridge payload of the settings, field for field.
    pub fn to_payload(&self) -> (r: CKNotificationInfoPayload)
        ensures
            notification_info_payload_view(r) == self@,
    {
        CKNotificationInfoPayload {
            alert_body: copy_opt_text(&self.alert_body),
            alert_localization_key: copy_opt_text(&self.alert_localization_key),
            alert_localization_args: copy_opt_texts(&self.alert_localization_args),
            title: copy_opt_text(&self.title),
            title_localization_key: copy_opt_text(&self.title_localization_key),
            title_localization_args: copy_opt_texts(&self.title_localization_args),
            subtitle: copy_opt_text(&self.subtitle),
            subtitle_localization_key: copy_opt_text(&self.subtitle_localization_key),
            subtitle_localization_args: copy_opt_texts(&self.subtitle_localization_args),
            alert_action_localization_key: copy_opt_text(&self.alert_action_localization_key),
            alert_launch_image: copy_opt_text(&self.alert_launch_image),
            sound_name: copy_opt_text(&self.sound_name),
            desired_keys: copy_opt_texts(&self.desired_keys),
            should_badge: self.should_badge,
            should_send_content_available: self.should_send_content_available,
            should_send_mutable_content: self.should_send_mutable_content,
            category: copy_opt_text(&self.category),
            collapse_id_key: copy_opt_text(&self.collapse_id_key),
        }
    }
}

/// Settings converted to a bridge payload and read back are the same settings:
/// where `p` is what `info.to_payload()` gives and `back` what
/// `CKNotificationInfo::from_payload(p)` gives, `back` has the view of `info`;
/// and a payload read as settings and written again carries the same content.
pub proof fn lemma_notification_info_payload_round_trip(
    info: CKNotificationInfo,
    p: CKNotificationInfoPayload,
    back: CKNotificationInfo,
    q: CKNotificationInfoPayload,
)
    requires
        notification_info_payload_view(p) == info@,
        back@ == notification_info_payload_view(p),
        notification_info_payload_view(q) == back@,
    ensures
        back@ == info@,
        notification_info_payload_view(q) == notification_info_payload_view(p),
        opt_text_view(q.alert_body) == opt_text_view(p.alert_body),
        q.should_send_content_available == p.should_send_content_available,
{
}

} // verus!
