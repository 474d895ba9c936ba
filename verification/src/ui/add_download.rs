//! The "add a download" dialog: its fields, how they change, and the request
//! it sends when started.
use vstd::prelude::*;
use vstd::string::StringExecFns;

use crate::decimal::{decimal_text, lemma_decimal_round_trip, usize_to_decimal};
use crate::download::{DownloadConfig, DownloadRequest, DownloadRequestMessage, Headers};
use crate::text::parse_usize_spec;
use crate::text::parse_usize;
use crate::ui::input::{
    first_error, is_url_rule, opt_text, url_rule, ValidatedInput, ValidatedInputMessage, ValidationRule,
};

verus! {

/// What can happen in the dialog.
#[derive(Debug)]
pub enum AddDownloadMessage {
    LinkInput(ValidatedInputMessage),
    FileNameInput(ValidatedInputMessage),
    DirectoryInput(ValidatedInputMessage),
    ToggleAdvanceOptions(bool),
    UserAgentInput(ValidatedInputMessage),
    AuthorizationInput(ValidatedInputMessage),
    RefererInput(ValidatedInputMessage),
    CookieInput(ValidatedInputMessage),
    ConnectionsPerServerInput(ValidatedInputMessage),
    RetryCountInput(ValidatedInputMessage),
    BufferSizeInput(ValidatedInputMessage),
    UpdateIntervalInput(ValidatedInputMessage),
    OpenDirectoryChooser,
    /// The directory the user picked (as text), if any.
    DirectorySelected(Option<String>),
    Clear,
    Hide,
    StartWrapper,
    Start(DownloadRequestMessage),
    DoNothing,
}

/// What the dialog asks its owner to do after a message.
#[derive(Debug)]
pub enum AddDownloadAction {
    Nothing,
    /// Let the user pick a directory, then send `DirectorySelected`.
    PickDirectory,
    /// Close the dialog.
    Hide,
    /// Send this download request.
    Start(DownloadRequestMessage),
}

/// The dialog's fields.
#[derive(Debug, Clone)]
pub struct AddDownload {
    pub link_input: ValidatedInput,
    pub file_name_input: ValidatedInput,
    pub directory_input: ValidatedInput,
    pub user_agent_input: ValidatedInput,
    pub authorization_input: ValidatedInput,
    pub referer_input: ValidatedInput,
    pub cookie_input: ValidatedInput,
    pub connections_per_server_input: ValidatedInput,
    pub retry_count_input: ValidatedInput,
    pub buffer_size_input: ValidatedInput,
    pub update_interval_input: ValidatedInput,
    pub show_advanced_options: bool,
    /// The download configuration the numeric fields start from.
    pub defaults: DownloadConfig,
}

/// The text of a field after a message (before it is checked again).
pub open spec fn edited_text(value: Seq<char>, message: ValidatedInputMessage) -> Seq<char> {
    match message {
        ValidatedInputMessage::ValueChanged(v) => v@,
        ValidatedInputMessage::Validate => value,
        ValidatedInputMessage::Clear => Seq::<char>::empty(),
    }
}

/// A field after a message, then checked: its text is the edited text, its
/// error that of the first rule that text fails; label, placeholder and rules stay.
pub open spec fn edited(before: ValidatedInput, after: ValidatedInput, message: ValidatedInputMessage) -> bool {
    &&& after.value@ == edited_text(before.value@, message)
    &&& opt_text(after.error) == first_error(before.rules(), after.value@)
    &&& after.rules() == before.rules()
    &&& after.label_text() == before.label_text()
    &&& after.placeholder_text() == before.placeholder_text()
}

/// A field after it is checked: only its error changes.
pub open spec fn checked(before: ValidatedInput, after: ValidatedInput) -> bool {
    &&& after.value == before.value
    &&& opt_text(after.error) == first_error(before.rules(), before.value@)
    &&& after.rules() == before.rules()
    &&& after.label_text() == before.label_text()
    &&& after.placeholder_text() == before.placeholder_text()
}

/// Whether a field's value passes its rules.
pub open spec fn passes(f: ValidatedInput) -> bool {
    first_error(f.rules(), f.value@) is None
}

/// A number typed in a field, or `default` when it does not parse.
pub open spec fn number_or(f: ValidatedInput, default: usize) -> usize {
    match parse_usize_spec(f.value@) {
        Some(n) => n,
        None => default,
    }
}

/// A header typed in a field: none when the field is empty.
pub open spec fn header_of(f: ValidatedInput) -> Option<String> {
    if f.value@.len() == 0 {
        None
    } else {
        Some(f.value)
    }
}

/// The configuration the advanced fields give: each number as typed, or its
/// fallback (8 connections, 3 retries, 256 KiB, 500 ms); the buffer size is
/// typed in KiB.
pub open spec fn advanced_config(d: AddDownload) -> DownloadConfig {
    DownloadConfig {
        connections_per_server: number_or(d.connections_per_server_input, 8),
        retry_count: number_or(d.retry_count_input, 3),
        buffer_size: (number_or(d.buffer_size_input, 256) * 1024) as usize,
        update_interval: number_or(d.update_interval_input, 500),
    }
}

/// The request the dialog sends.
pub open spec fn request_of(d: AddDownload) -> DownloadRequestMessage {
    DownloadRequestMessage {
        request: DownloadRequest {
            url: d.link_input.value,
            directory: d.directory_input.value,
            rename: header_of(d.file_name_input),
            headers: Headers {
                user_agent: header_of(d.user_agent_input),
                authorization: header_of(d.authorization_input),
                referer: header_of(d.referer_input),
                cookie: header_of(d.cookie_input),
            },
        },
        config: if d.show_advanced_options {
            Some(advanced_config(d))
        } else {
            None
        },
        info: None,
    }
}

/// Whether the fields that count pass their rules: link, file name and
/// directory; and with the advanced options shown, the advanced fields too.
pub open spec fn all_pass(d: AddDownload) -> bool {
    &&& passes(d.link_input)
    &&& passes(d.directory_input)
    &&& passes(d.file_name_input)
    &&& d.show_advanced_options ==> {
        &&& passes(d.user_agent_input)
        &&& passes(d.authorization_input)
        &&& passes(d.referer_input)
        &&& passes(d.cookie_input)
        &&& passes(d.connections_per_server_input)
        &&& passes(d.retry_count_input)
        &&& passes(d.buffer_size_input)
        &&& passes(d.update_interval_input)
    }
}

/// The dialog after `Start` was pressed: the link, directory and file name
/// fields are checked, and the advanced ones too when they are shown; nothing
/// else changes. When every checked field passes, the request is sent.
pub open spec fn started(before: AddDownload, after: AddDownload, action: AddDownloadAction) -> bool {
    &&& checked(before.link_input, after.link_input)
    &&& checked(before.directory_input, after.directory_input)
    &&& checked(before.file_name_input, after.file_name_input)
    &&& after.show_advanced_options == before.show_advanced_options
    &&& before.show_advanced_options ==> {
        &&& checked(before.user_agent_input, after.user_agent_input)
        &&& checked(before.authorization_input, after.authorization_input)
        &&& checked(before.referer_input, after.referer_input)
        &&& checked(before.cookie_input, after.cookie_input)
        &&& checked(
            before.connections_per_server_input,
            after.connections_per_server_input,
        )
        &&& checked(before.retry_count_input, after.retry_count_input)
        &&& checked(before.buffer_size_input, after.buffer_size_input)
        &&& checked(before.update_interval_input, after.update_interval_input)
    }
    &&& !before.show_advanced_options ==> {
        &&& after.user_agent_input == before.user_agent_input
        &&& after.authorization_input == before.authorization_input
        &&& after.referer_input == before.referer_input
        &&& after.cookie_input == before.cookie_input
        &&& after.connections_per_server_input
            == before.connections_per_server_input
        &&& after.retry_count_input == before.retry_count_input
        &&& after.buffer_size_input == before.buffer_size_input
        &&& after.update_interval_input == before.update_interval_input
    }
    &&& if all_pass(before) {
        action == AddDownloadAction::Start(request_of(before))
    } else {
        action is Nothing
    }
    &&& after.defaults == before.defaults
}

/// A field as a fresh dialog shows it: this value, label and placeholder,
/// and no error.
pub open spec fn shows(f: ValidatedInput, value: Seq<char>, label: Seq<char>, placeholder: Seq<char>) -> bool {
    &&& f.value@ == value
    &&& f.error is None
    &&& f.label_text() == label
    &&& f.placeholder_text() == placeholder
}

/// The fields of a fresh dialog, with the numeric fields showing `defaults`:
/// every field without an error, the advanced options hidden.
pub open spec fn is_fresh(d: AddDownload, defaults: DownloadConfig) -> bool {
    &&& d.defaults == defaults
    &&& !d.show_advanced_options
    &&& shows(d.link_input, Seq::<char>::empty(), "Link"@, "Enter your download link here"@)
    &&& d.link_input.rules().len() == 2
    &&& d.link_input.rules()[0] is NonEmpty
    &&& d.link_input.rules()[1] matches ValidationRule::Custom(c) && is_url_rule(c)
    &&& shows(d.file_name_input, Seq::<char>::empty(), "File Name"@, "Enter file name here"@)
    &&& d.file_name_input.rules().len() == 0
    &&& shows(d.directory_input, Seq::<char>::empty(), "Directory"@, "Enter directory path here"@)
    &&& d.directory_input.rules() == seq![ValidationRule::NonEmpty]
    &&& shows(
        d.user_agent_input,
        "net-manthan/0.1.0"@,
        "User Agent"@,
        "Enter the user agent you want to use"@,
    )
    &&& d.user_agent_input.rules().len() == 0
    &&& shows(d.authorization_input, Seq::<char>::empty(), "Authorization"@, "Enter authorization"@)
    &&& d.authorization_input.rules().len() == 0
    &&& shows(d.referer_input, Seq::<char>::empty(), "Referer"@, "Enter Referer site"@)
    &&& d.referer_input.rules().len() == 0
    &&& shows(d.cookie_input, Seq::<char>::empty(), "Cookie"@, "Enter cookie here"@)
    &&& d.cookie_input.rules().len() == 0
    &&& shows(
        d.connections_per_server_input,
        decimal_text(defaults.connections_per_server as nat),
        "Split"@,
        "Number of parts to split the download into (if available)"@,
    )
    &&& d.connections_per_server_input.rules() == seq![ValidationRule::IsUsize]
    &&& shows(
        d.retry_count_input,
        decimal_text(defaults.retry_count as nat),
        "Retry count"@,
        "Enter retry count for download threads"@,
    )
    &&& d.retry_count_input.rules() == seq![ValidationRule::IsUsize]
    &&& shows(
        d.buffer_size_input,
        decimal_text((defaults.buffer_size / 1024) as nat),
        "Buffer Size (KB)"@,
        "Enter buffer size for download threads"@,
    )
    &&& d.buffer_size_input.rules() == seq![ValidationRule::IsUsize]
    &&& shows(
        d.update_interval_input,
        decimal_text(defaults.update_interval as nat),
        "Update interval"@,
        "The interval for which the threads update the download manager"@,
    )
    &&& d.update_interval_input.rules() == seq![ValidationRule::IsUsize]
}

/// Applies a message to a field, then checks it.
fn edit(field: &mut ValidatedInput, message: ValidatedInputMessage)
    ensures
        edited(*old(field), *final(field), message),
{
    field.update(message);
    field.validate();
}

/// A field whose number rule is the only one.
fn number_field(label: &str, placeholder: &str, value: usize) -> (f: ValidatedInput)
    ensures
        f.value@ == decimal_text(value as nat),
        f.error is None,
        f.label_text() == label@,
        f.placeholder_text() == placeholder@,
        f.rules() == seq![ValidationRule::IsUsize],
{
    let text = usize_to_decimal(value);
    let f = ValidatedInput::new(label, placeholder).as_usize().with_value(text.as_str());
    assert(f.rules() =~= seq![ValidationRule::IsUsize]);
    f
}

/// A header typed in a field.
fn header(f: &ValidatedInput) -> (r: Option<String>)
    ensures
        r == header_of(*f),
{
    if f.value.unicode_len() == 0 {
        None
    } else {
        Some(f.value.clone())
    }
}

/// A number typed in a field, or `default`.
fn number(f: &ValidatedInput, default: usize) -> (r: usize)
    ensures
        r == number_or(*f, default),
{
    match parse_usize(f.value.as_str()) {
        Some(n) => n,
        None => default,
    }
}

/// The dialog before and after a message, and what its owner is asked to do.
pub open spec fn stepped(
    before: AddDownload,
    after: AddDownload,
    message: AddDownloadMessage,
    action: AddDownloadAction,
) -> bool {
    &&& after.defaults == before.defaults
    &&& match message {
        AddDownloadMessage::LinkInput(m) => action is Nothing && edited(
            before.link_input,
            after.link_input,
            m,
        ) && after == (AddDownload { link_input: after.link_input, ..before }),
        AddDownloadMessage::FileNameInput(m) => action is Nothing && edited(
            before.file_name_input,
            after.file_name_input,
            m,
        ) && after == (AddDownload {
            file_name_input: after.file_name_input,
            ..before
        }),
        AddDownloadMessage::DirectoryInput(m) => action is Nothing && edited(
            before.directory_input,
            after.directory_input,
            m,
        ) && after == (AddDownload {
            directory_input: after.directory_input,
            ..before
        }),
        AddDownloadMessage::UserAgentInput(m) => action is Nothing && edited(
            before.user_agent_input,
            after.user_agent_input,
            m,
        ) && after == (AddDownload {
            user_agent_input: after.user_agent_input,
            ..before
        }),
        AddDownloadMessage::AuthorizationInput(m) => action is Nothing && edited(
            before.authorization_input,
            after.authorization_input,
            m,
        ) && after == (AddDownload {
            authorization_input: after.authorization_input,
            ..before
        }),
        AddDownloadMessage::RefererInput(m) => action is Nothing && edited(
            before.referer_input,
            after.referer_input,
            m,
        ) && after == (AddDownload {
            referer_input: after.referer_input,
            ..before
        }),
        AddDownloadMessage::CookieInput(m) => action is Nothing && edited(
            before.cookie_input,
            after.cookie_input,
            m,
        ) && after == (AddDownload { cookie_input: after.cookie_input, ..before }),
        AddDownloadMessage::ConnectionsPerServerInput(m) => action is Nothing && edited(
            before.connections_per_server_input,
            after.connections_per_server_input,
            m,
        ) && after == (AddDownload {
            connections_per_server_input: after.connections_per_server_input,
            ..before
        }),
        AddDownloadMessage::RetryCountInput(m) => action is Nothing && edited(
            before.retry_count_input,
            after.retry_count_input,
            m,
        ) && after == (AddDownload {
            retry_count_input: after.retry_count_input,
            ..before
        }),
        AddDownloadMessage::BufferSizeInput(m) => action is Nothing && edited(
            before.buffer_size_input,
            after.buffer_size_input,
            m,
        ) && after == (AddDownload {
            buffer_size_input: after.buffer_size_input,
            ..before
        }),
        AddDownloadMessage::UpdateIntervalInput(m) => action is Nothing && edited(
            before.update_interval_input,
            after.update_interval_input,
            m,
        ) && after == (AddDownload {
            update_interval_input: after.update_interval_input,
            ..before
        }),
        AddDownloadMessage::OpenDirectoryChooser => action is PickDirectory && after
            == before,
        AddDownloadMessage::DirectorySelected(dir) => action is Nothing && match dir {
            Some(d) => {
                &&& after.directory_input == (ValidatedInput {
                    value: d,
                    ..before.directory_input
                })
                &&& after == (AddDownload {
                    directory_input: after.directory_input,
                    ..before
                })
            },
            None => after == before,
        },
        AddDownloadMessage::Clear => action is Hide && is_fresh(after, before.defaults),
        AddDownloadMessage::ToggleAdvanceOptions(v) => action is Nothing && after == (
        AddDownload { show_advanced_options: v, ..before }),
        AddDownloadMessage::StartWrapper => started(before, after, action),
        _ => action is Nothing && after == before,
    }
}

/// Whether starting with these fields stays within machine numbers: the
/// buffer size, typed in KiB, still fits in bytes.
pub open spec fn start_fits(d: AddDownload) -> bool {
    d.show_advanced_options && all_pass(d) ==> number_or(d.buffer_size_input, 256) * 1024 <= usize::MAX
}

impl AddDownload {
    /// A fresh dialog whose numeric fields show `defaults`.
    pub fn new(defaults: DownloadConfig) -> (d: Self)
        ensures
            is_fresh(d, defaults),
    {
        let link = ValidatedInput::new("Link", "Enter your download link here").non_empty().custom_validation(
            url_rule(),
        );
        let directory = ValidatedInput::new("Directory", "Enter directory path here").non_empty();
        assert(directory.rules() =~= seq![ValidationRule::NonEmpty]);
        AddDownload {
            link_input: link,
            file_name_input: ValidatedInput::new("File Name", "Enter file name here"),
            directory_input: directory,
            user_agent_input: ValidatedInput::new(
                "User Agent",
                "Enter the user agent you want to use",
            ).with_value("net-manthan/0.1.0"),
            authorization_input: ValidatedInput::new("Authorization", "Enter authorization"),
            referer_input: ValidatedInput::new("Referer", "Enter Referer site"),
            cookie_input: ValidatedInput::new("Cookie", "Enter cookie here"),
            connections_per_server_input: number_field(
                "Split",
                "Number of parts to split the download into (if available)",
                defaults.connections_per_server,
            ),
            retry_count_input: number_field(
                "Retry count",
                "Enter retry count for download threads",
                defaults.retry_count,
            ),
            buffer_size_input: number_field(
                "Buffer Size (KB)",
                "Enter buffer size for download threads",
                defaults.buffer_size / 1024,
            ),
            update_interval_input: number_field(
                "Update interval",
                "The interval for which the threads update the download manager",
                defaults.update_interval,
            ),
            show_advanced_options: false,
            defaults,
        }
    }

    /// Checks the fields that count and, when they all pass, builds the request.
    fn start(&mut self) -> (action: AddDownloadAction)
        requires
            start_fits(*old(self)),
        ensures
            started(*old(self), *final(self), action),
    {
        self.link_input.validate();
        self.directory_input.validate();
        self.file_name_input.validate();
        if self.show_advanced_options {
            self.user_agent_input.validate();
            self.authorization_input.validate();
            self.referer_input.validate();
            self.cookie_input.validate();
            self.connections_per_server_input.validate();
            self.retry_count_input.validate();
            self.buffer_size_input.validate();
            self.update_interval_input.validate();
        }
        let mut all_valid = self.link_input.is_valid() && self.directory_input.is_valid()
            && self.file_name_input.is_valid();
        if self.show_advanced_options {
            all_valid = all_valid && self.user_agent_input.is_valid()
                && self.authorization_input.is_valid() && self.referer_input.is_valid()
                && self.cookie_input.is_valid() && self.connections_per_server_input.is_valid()
                && self.retry_count_input.is_valid() && self.buffer_size_input.is_valid()
                && self.update_interval_input.is_valid();
        }
        if !all_valid {
            return AddDownloadAction::Nothing;
        }
        let config = if self.show_advanced_options {
            let kib = number(&self.buffer_size_input, 256);
            Some(
                DownloadConfig {
                    connections_per_server: number(&self.connections_per_server_input, 8),
                    retry_count: number(&self.retry_count_input, 3),
                    buffer_size: kib * 1024,
                    update_interval: number(&self.update_interval_input, 500),
                },
            )
        } else {
            None
        };
        let request = DownloadRequest {
            url: self.link_input.value.clone(),
            directory: self.directory_input.value.clone(),
            rename: header(&self.file_name_input),
            headers: Headers {
                user_agent: header(&self.user_agent_input),
                authorization: header(&self.authorization_input),
                referer: header(&self.referer_input),
                cookie: header(&self.cookie_input),
            },
        };
        AddDownloadAction::Start(DownloadRequestMessage { request, config, info: None })
    }

    /// Applies a message; says what the owner must do next.
    pub fn update(&mut self, message: AddDownloadMessage) -> (action: AddDownloadAction)
        requires
            message is StartWrapper ==> start_fits(*old(self)),
        ensures
            stepped(*old(self), *final(self), message, action),
    {
        match message {
            AddDownloadMessage::LinkInput(msg) => {
                edit(&mut self.link_input, msg);
                AddDownloadAction::Nothing
            },
            AddDownloadMessage::FileNameInput(msg) => {
                edit(&mut self.file_name_input, msg);
                AddDownloadAction::Nothing
            },
            AddDownloadMessage::DirectoryInput(msg) => {
                edit(&mut self.directory_input, msg);
                AddDownloadAction::Nothing
            },
            AddDownloadMessage::OpenDirectoryChooser => AddDownloadAction::PickDirectory,
            AddDownloadMessage::DirectorySelected(directory) => {
                if let Some(dir) = directory {
                    self.directory_input.value = dir;
                }
                AddDownloadAction::Nothing
            },
            AddDownloadMessage::UserAgentInput(msg) => {
                edit(&mut self.user_agent_input, msg);
                AddDownloadAction::Nothing
            },
            AddDownloadMessage::AuthorizationInput(msg) => {
                edit(&mut self.authorization_input, msg);
                AddDownloadAction::Nothing
            },
            AddDownloadMessage::RefererInput(msg) => {
                edit(&mut self.referer_input, msg);
                AddDownloadAction::Nothing
            },
            AddDownloadMessage::CookieInput(msg) => {
                edit(&mut self.cookie_input, msg);
                AddDownloadAction::Nothing
            },
            AddDownloadMessage::ConnectionsPerServerInput(msg) => {
                edit(&mut self.connections_per_server_input, msg);
                AddDownloadAction::Nothing
            },
            AddDownloadMessage::RetryCountInput(msg) => {
                edit(&mut self.retry_count_input, msg);
                AddDownloadAction::Nothing
            },
            AddDownloadMessage::BufferSizeInput(msg) => {
                edit(&mut self.buffer_size_input, msg);
                AddDownloadAction::Nothing
            },
            AddDownloadMessage::UpdateIntervalInput(msg) => {
                edit(&mut self.update_interval_input, msg);
                AddDownloadAction::Nothing
            },
            AddDownloadMessage::Clear => {
                *self = Self::new(self.defaults);
                AddDownloadAction::Hide
            },
            AddDownloadMessage::StartWrapper => self.start(),
            AddDownloadMessage::ToggleAdvanceOptions(visible) => {
                self.show_advanced_options = visible;
                AddDownloadAction::Nothing
            },
            // handled by the owner of the dialog
            AddDownloadMessage::Start(_) => AddDownloadAction::Nothing,
            // handled by the owner of the dialog
            AddDownloadMessage::Hide => AddDownloadAction::Nothing,
            AddDownloadMessage::DoNothing => AddDownloadAction::Nothing,
        }
    }
}

/// A fresh dialog's numeric fields read back as the configuration it was made
/// from (the buffer size in whole KiB), so starting it unchanged with the
/// advanced options shown asks for that configuration.
pub proof fn lemma_fresh_numbers_read_back(d: AddDownload, defaults: DownloadConfig)
    requires
        is_fresh(d, defaults),
    ensures
        number_or(d.connections_per_server_input, 8) == defaults.connections_per_server,
        number_or(d.retry_count_input, 3) == defaults.retry_count,
        number_or(d.buffer_size_input, 256) == defaults.buffer_size / 1024,
        number_or(d.update_interval_input, 500) == defaults.update_interval,
{
    lemma_decimal_round_trip(defaults.connections_per_server);
    lemma_decimal_round_trip(defaults.retry_count);
    lemma_decimal_round_trip(defaults.buffer_size / 1024);
    lemma_decimal_round_trip(defaults.update_interval);
}

/// Each part of the request the dialog sends comes from its own field: the
/// link is the URL, the directory field the directory, and the file name,
/// user agent, authorization, referer and cookie fields give the rename and
/// the headers of the same names, none when the field is empty. With the
/// advanced options shown, each number is the one typed in its own field (or
/// its fallback when that does not parse), the buffer size read in KiB;
/// without them there is no configuration. No information is sent.
pub proof fn lemma_request_fields(d: AddDownload)
    ensures
        request_of(d).request.url == d.link_input.value,
        request_of(d).request.directory == d.directory_input.value,
        request_of(d).request.rename == (if d.file_name_input.value@.len() == 0 {
            None
        } else {
            Some(d.file_name_input.value)
        }),
        request_of(d).request.headers.user_agent == (if d.user_agent_input.value@.len() == 0 {
            None
        } else {
            Some(d.user_agent_input.value)
        }),
        request_of(d).request.headers.authorization == (if d.authorization_input.value@.len()
            == 0 {
            None
        } else {
            Some(d.authorization_input.value)
        }),
        request_of(d).request.headers.referer == (if d.referer_input.value@.len() == 0 {
            None
        } else {
            Some(d.referer_input.value)
        }),
        request_of(d).request.headers.cookie == (if d.cookie_input.value@.len() == 0 {
            None
        } else {
            Some(d.cookie_input.value)
        }),
        !d.show_advanced_options ==> request_of(d).config is None,
        d.show_advanced_options ==> (request_of(d).config matches Some(c) && {
            &&& c.connections_per_server == (match parse_usize_spec(
                d.connections_per_server_input.value@,
            ) {
                Some(n) => n,
                None => 8,
            })
            &&& c.retry_count == (match parse_usize_spec(d.retry_count_input.value@) {
                Some(n) => n,
                None => 3,
            })
            &&& c.buffer_size == ((match parse_usize_spec(d.buffer_size_input.value@) {
                Some(n) => n,
                None => 256usize,
            }) * 1024) as usize
            &&& c.update_interval == (match parse_usize_spec(d.update_interval_input.value@) {
                Some(n) => n,
                None => 500,
            })
        }),
        request_of(d).info is None,
{
}

} // verus!
