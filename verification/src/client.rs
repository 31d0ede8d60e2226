//! The session client: what each answer of the portal means for the
//! session. Every operation checks the portal's code before it goes on, and
//! a session that was refused is left as it was.
//!
//! The caller talks to the portal and hands over what came back.

use vstd::prelude::*;
use crate::error::{ErrorKind, ErrorKindView};
use crate::json::{json_string_literal, quote};
use crate::model::{BatchInfo, CourseInfo, Credentials, CredentialsView};
use crate::state::{AppState, AppStateView, Step};
use crate::text::opt_text;

verus! {

/// The message of an answer of the portal.
#[derive(Debug)]
pub enum Message {
    /// The message is a string, with this text.
    Text(String),
    /// The message is no string: its compact JSON text, which is `null`
    /// where the answer has no message.
    Other(String),
}

/// The mathematical model of a `Message`.
pub enum MessageView {
    Text(Seq<char>),
    Other(Seq<char>),
}

impl View for Message {
    type V = MessageView;

    open spec fn view(&self) -> MessageView {
        match *self {
            Message::Text(t) => MessageView::Text(t@),
            Message::Other(j) => MessageView::Other(j@),
        }
    }
}

/// The portal's answer to a login. The code and the token are `None` where
/// the answer lacks them or holds a value of another kind. The rounds are
/// an error where they could not be decoded, with the words of the decoder.
#[derive(Debug)]
pub struct LoginReply {
    pub code: Option<i64>,
    pub msg: Message,
    pub token: Option<String>,
    pub batch_list: Result<Vec<BatchInfo>, String>,
}

/// The mathematical model of a `LoginReply`.
pub struct LoginReplyView {
    pub code: Option<i64>,
    pub msg: MessageView,
    pub token: Option<Seq<char>>,
    pub batch_list: Result<Seq<BatchInfo>, Seq<char>>,
}

impl View for LoginReply {
    type V = LoginReplyView;

    open spec fn view(&self) -> LoginReplyView {
        LoginReplyView {
            code: self.code,
            msg: self.msg@,
            token: opt_text(self.token),
            batch_list: match self.batch_list {
                Ok(list) => Ok(list@),
                Err(words) => Err(words@),
            },
        }
    }
}

/// The portal's answer to a request for a list of courses. The code is
/// `None` where the answer lacks it or holds a value of another kind. The
/// courses are an error where they could not be decoded, with the words of
/// the decoder.
#[derive(Debug)]
pub struct CourseListReply {
    pub code: Option<i64>,
    pub msg: Message,
    pub data: Result<Vec<CourseInfo>, String>,
}

/// The mathematical model of a `CourseListReply`.
pub struct CourseListReplyView {
    pub code: Option<i64>,
    pub msg: MessageView,
    pub data: Result<Seq<CourseInfo>, Seq<char>>,
}

impl View for CourseListReply {
    type V = CourseListReplyView;

    open spec fn view(&self) -> CourseListReplyView {
        CourseListReplyView {
            code: self.code,
            msg: self.msg@,
            data: match self.data {
                Ok(list) => Ok(list@),
                Err(words) => Err(words@),
            },
        }
    }
}

/// What is sent to log in. The password travels encrypted.
#[derive(Debug)]
pub struct LoginRequest {
    pub loginname: String,
    pub password: String,
    pub captcha: String,
    pub uuid: String,
}

/// The mathematical model of a `LoginRequest`.
pub struct LoginRequestView {
    pub loginname: Seq<char>,
    pub password: Seq<char>,
    pub captcha: Seq<char>,
    pub uuid: Seq<char>,
}

impl View for LoginRequest {
    type V = LoginRequestView;

    open spec fn view(&self) -> LoginRequestView {
        LoginRequestView {
            loginname: self.loginname@,
            password: self.password@,
            captcha: self.captcha@,
            uuid: self.uuid@,
        }
    }
}

/// What is sent to choose a round.
#[derive(Debug)]
pub struct BatchRequest {
    pub batch_id: String,
    pub token: String,
}

/// What is sent to ask for the course lists.
#[derive(Debug)]
pub struct CoursesRequest {
    pub token: String,
    pub batch_id: String,
}

/// The portal's message as an error carries it: its JSON text. For a
/// message that is a string this is the string as a JSON literal, in double
/// quotes.
pub open spec fn portal_message(msg: MessageView) -> Seq<char> {
    match msg {
        MessageView::Text(t) => json_string_literal(t),
        MessageView::Other(j) => j,
    }
}

/// The portal's message as an error carries it.
pub fn render_message(msg: &Message) -> (r: String)
    ensures
        r@ == portal_message(msg@),
{
    match msg {
        Message::Text(t) => quote(t.as_str()),
        Message::Other(j) => j.clone(),
    }
}

/// Whether a code is the portal's code for success.
pub open spec fn is_success(code: Option<i64>) -> bool {
    code == Some(200i64)
}

/// Whether a code is the portal's code for success.
pub fn code_is_success(code: &Option<i64>) -> (r: bool)
    ensures
        r == is_success(*code),
{
    match code {
        Some(c) => *c == 200,
        None => false,
    }
}

/// Whether the portal accepted a login: it answered with the code for
/// success. The message has no say in it.
pub open spec fn login_accepted(reply: LoginReplyView) -> bool {
    is_success(reply.code)
}

/// What a login amounts to: the token and the rounds, or the reason why
/// there are none. A login that the portal did not accept fails with the
/// portal's message; an accepted one fails where the token is missing, and
/// where the rounds could not be decoded, with the words of the decoder.
pub open spec fn login_verdict(reply: LoginReplyView) -> Result<
    (Seq<char>, Seq<BatchInfo>),
    ErrorKindView,
> {
    if !login_accepted(reply) {
        Err(ErrorKindView::ParseError(portal_message(reply.msg)))
    } else if reply.token is None {
        Err(ErrorKindView::ParseError("Invalid token"@))
    } else if reply.batch_list is Err {
        Err(ErrorKindView::ParseError(reply.batch_list->Err_0))
    } else {
        Ok((reply.token->0, reply.batch_list->Ok_0))
    }
}

/// Which round a choice by index stands for, and the token to choose it
/// with; or the reason why there is none.
pub open spec fn batch_choice(s: AppStateView, batch_idx: nat) -> Result<
    (Seq<char>, Seq<char>),
    ErrorKindView,
> {
    if s.token is None {
        Err(ErrorKindView::ParseError("No token available"@))
    } else if batch_idx >= s.batch_list.len() {
        Err(ErrorKindView::ParseError("Invalid batch index"@))
    } else {
        Ok((s.batch_list[batch_idx as int].code@, s.token->0))
    }
}

/// What the session must hold before the course lists are asked for, or the
/// reason why it does not.
pub open spec fn courses_access(s: AppStateView) -> Result<(Seq<char>, Seq<char>), ErrorKindView> {
    if s.token is None {
        Err(ErrorKindView::ParseError("No token available"@))
    } else if s.batch_id is None {
        Err(ErrorKindView::ParseError("No batch id selected"@))
    } else {
        Ok((s.token->0, s.batch_id->0))
    }
}

/// What the two answers on the course lists amount to: the enrolled and the
/// favorite courses, or the reason why there are none. Each list is checked
/// by its own code, the enrolled courses first; a list that the portal
/// granted but that could not be decoded fails with the words of the
/// decoder.
pub open spec fn courses_verdict(selected: CourseListReplyView, favorite: CourseListReplyView)
    -> Result<(Seq<CourseInfo>, Seq<CourseInfo>), ErrorKindView> {
    if !is_success(selected.code) {
        Err(ErrorKindView::CourseError(portal_message(selected.msg)))
    } else if selected.data is Err {
        Err(ErrorKindView::ParseError(selected.data->Err_0))
    } else if !is_success(favorite.code) {
        Err(ErrorKindView::CourseError(portal_message(favorite.msg)))
    } else if favorite.data is Err {
        Err(ErrorKindView::ParseError(favorite.data->Err_0))
    } else {
        Ok((selected.data->Ok_0, favorite.data->Ok_0))
    }
}

impl AppStateView {
    /// The session after a login: it holds the token and the rounds, and a
    /// student who was logged out is at the choice of a round.
    pub open spec fn logged_in(self, token: Seq<char>, batch_list: Seq<BatchInfo>) -> AppStateView {
        AppStateView {
            step: if self.step == Step::LoggedOut {
                Step::BatchSelection
            } else {
                self.step
            },
            token: Some(token),
            batch_list,
            ..self
        }
    }

    /// The session after a round was chosen: it holds the round, and a
    /// student who was at the choice of a round is at the choice of courses.
    pub open spec fn batch_chosen(self, batch_id: Seq<char>) -> AppStateView {
        AppStateView {
            step: if self.step == Step::BatchSelection {
                Step::CourseSelection
            } else {
                self.step
            },
            batch_id: Some(batch_id),
            ..self
        }
    }

    /// The session after the course lists came.
    pub open spec fn courses_listed(self, selected: Seq<CourseInfo>, favorite: Seq<CourseInfo>)
        -> AppStateView {
        AppStateView { selected_courses: selected, favorite_courses: favorite, ..self }
    }
}

/// What is sent to log in, given how the encryption of the password ended:
/// the ciphertext, or the words of the failure. A password that could not
/// be encrypted is a crypto error, and nothing is sent.
pub open spec fn login_request_spec(
    credentials: CredentialsView,
    cipher: Result<Seq<char>, Seq<char>>,
) -> Result<LoginRequestView, ErrorKindView> {
    match cipher {
        Ok(ciphertext) => Ok(
            LoginRequestView {
                loginname: credentials.username,
                password: ciphertext,
                captcha: credentials.captcha_code,
                uuid: credentials.captcha_uuid,
            },
        ),
        Err(words) => Err(ErrorKindView::CryptoError(words)),
    }
}

/// What is sent to log in, given how the encryption of the password ended.
///
/// The request carries the ciphertext in place of the password. Where the
/// encryption failed, for a malformed key or otherwise, the call fails with
/// a crypto error that carries the words of the failure.
pub fn login_request(credentials: &Credentials, cipher: Result<String, String>) -> (r: Result<
    LoginRequest,
    ErrorKind,
>)
    ensures
        match login_request_spec(
            credentials@,
            match cipher {
                Ok(ciphertext) => Ok(ciphertext@),
                Err(words) => Err(words@),
            },
        ) {
            Ok(request) => r is Ok && r->Ok_0@ == request,
            Err(e) => r is Err && r->Err_0@ == e,
        },
{
    match cipher {
        Ok(ciphertext) => Ok(
            LoginRequest {
                loginname: credentials.username.clone(),
                password: ciphertext,
                captcha: credentials.captcha_code.clone(),
                uuid: credentials.captcha_uuid.clone(),
            },
        ),
        Err(words) => Err(ErrorKind::CryptoError(words)),
    }
}

/// Takes the portal's answer to a login into the session.
///
/// A login that the portal answered with the code for success, with a
/// token and a list of rounds, puts both into the session and moves a
/// logged-out student to the choice of a round. Any other answer fails,
/// with the portal's message where the portal refused, and leaves the
/// session as it was.
pub fn login(reply: LoginReply, app_state: &mut AppState) -> (r: Result<(), ErrorKind>)
    ensures
        match login_verdict(reply@) {
            Ok((token, batch_list)) => r is Ok && final(app_state)@ == old(app_state)@.logged_in(
                token,
                batch_list,
            ),
            Err(e) => r is Err && r->Err_0@ == e && final(app_state)@ == old(app_state)@,
        },
        old(app_state)@.wf() ==> final(app_state)@.wf(),
{
    if !code_is_success(&reply.code) {
        return Err(ErrorKind::ParseError(render_message(&reply.msg)));
    }
    let token = match reply.token {
        Some(token) => token,
        None => {
            return Err(ErrorKind::ParseError("Invalid token".to_string()));
        },
    };
    let batch_list = match reply.batch_list {
        Ok(list) => list,
        Err(words) => {
            return Err(ErrorKind::ParseError(words));
        },
    };
    if app_state.step == Step::LoggedOut {
        app_state.step = Step::BatchSelection;
    }
    app_state.token = Some(token);
    app_state.batch_list = batch_list;
    Ok(())
}

/// What an operation that needs the connection answers before it does
/// anything else: nothing once the connection is set up, a network error
/// before that.
pub open spec fn client_check(initialized: bool) -> Result<(), ErrorKindView> {
    if initialized {
        Ok(())
    } else {
        Err(ErrorKindView::NetworkError("Client not initialized"@))
    }
}

/// Refuses an operation that is called before the connection is set up.
pub fn require_client(initialized: bool) -> (r: Result<(), ErrorKind>)
    ensures
        match client_check(initialized) {
            Ok(_) => r is Ok,
            Err(e) => r is Err && r->Err_0@ == e,
        },
{
    if initialized {
        Ok(())
    } else {
        Err(ErrorKind::NetworkError("Client not initialized".to_string()))
    }
}

/// Whether the captcha is to be fetched anew after a login attempt: after
/// every attempt that failed.
pub fn captcha_refresh_due(attempt: &Result<(), ErrorKind>) -> (r: bool)
    ensures
        r == (*attempt is Err),
{
    attempt.is_err()
}

/// What is sent to choose the round at `batch_idx` of the session's list.
/// Fails without a token, and for an index beyond the list.
pub fn batch_request(batch_idx: usize, app_state: &AppState) -> (r: Result<
    BatchRequest,
    ErrorKind,
>)
    ensures
        match batch_choice(app_state@, batch_idx as nat) {
            Ok((batch_id, token)) => r is Ok && r->Ok_0.batch_id@ == batch_id && r->Ok_0.token@
                == token,
            Err(e) => r is Err && r->Err_0@ == e,
        },
{
    let token = match &app_state.token {
        Some(token) => token.clone(),
        None => {
            return Err(ErrorKind::ParseError("No token available".to_string()));
        },
    };
    if batch_idx >= app_state.batch_list.len() {
        return Err(ErrorKind::ParseError("Invalid batch index".to_string()));
    }
    let batch_id = app_state.batch_list[batch_idx].code.clone();
    Ok(BatchRequest { batch_id, token })
}

/// Takes the portal's answer to the choice of a round into the session.
///
/// Where the choice was in order and the portal answered with the code for
/// success, the session holds the round and a student at the choice of a
/// round moves on to the choice of courses. Otherwise the call fails and
/// the session stays as it was.
pub fn set_batch(batch_idx: usize, code: Option<i64>, app_state: &mut AppState) -> (r: Result<
    (),
    ErrorKind,
>)
    ensures
        match batch_choice(old(app_state)@, batch_idx as nat) {
            Err(e) => r is Err && r->Err_0@ == e && final(app_state)@ == old(app_state)@,
            Ok((batch_id, token)) => if is_success(code) {
                r is Ok && final(app_state)@ == old(app_state)@.batch_chosen(batch_id)
            } else {
                r is Err && r->Err_0@ == ErrorKindView::ParseError("Failed to set batch"@)
                    && final(app_state)@ == old(app_state)@
            },
        },
        old(app_state)@.wf() ==> final(app_state)@.wf(),
{
    let request = match batch_request(batch_idx, app_state) {
        Ok(request) => request,
        Err(e) => {
            return Err(e);
        },
    };
    if !code_is_success(&code) {
        return Err(ErrorKind::ParseError("Failed to set batch".to_string()));
    }
    if app_state.step == Step::BatchSelection {
        app_state.step = Step::CourseSelection;
    }
    app_state.batch_id = Some(request.batch_id);
    Ok(())
}

/// What is sent to ask for the course lists. Fails without a token, and
/// without a round.
pub fn courses_request(app_state: &AppState) -> (r: Result<CoursesRequest, ErrorKind>)
    ensures
        match courses_access(app_state@) {
            Ok((token, batch_id)) => r is Ok && r->Ok_0.token@ == token && r->Ok_0.batch_id@
                == batch_id,
            Err(e) => r is Err && r->Err_0@ == e,
        },
{
    let token = match &app_state.token {
        Some(token) => token.clone(),
        None => {
            return Err(ErrorKind::ParseError("No token available".to_string()));
        },
    };
    let batch_id = match &app_state.batch_id {
        Some(batch_id) => batch_id.clone(),
        None => {
            return Err(ErrorKind::ParseError("No batch id selected".to_string()));
        },
    };
    Ok(CoursesRequest { token, batch_id })
}

/// Takes the portal's answers on the two course lists into the session.
///
/// A session without a token or a round is refused. Each list fails by its
/// own code, with the portal's message for it. Where both lists came, the
/// session holds both; otherwise it stays as it was.
pub fn get_courses(selected: CourseListReply, favorite: CourseListReply, app_state: &mut AppState)
    -> (r: Result<(), ErrorKind>)
    ensures
        match courses_access(old(app_state)@) {
            Err(e) => r is Err && r->Err_0@ == e && final(app_state)@ == old(app_state)@,
            Ok(_) => match courses_verdict(selected@, favorite@) {
                Ok((s, f)) => r is Ok && final(app_state)@ == old(app_state)@.courses_listed(s, f),
                Err(e) => r is Err && r->Err_0@ == e && final(app_state)@ == old(app_state)@,
            },
        },
        old(app_state)@.wf() ==> final(app_state)@.wf(),
{
    match courses_request(app_state) {
        Ok(_) => {},
        Err(e) => {
            return Err(e);
        },
    }
    if !code_is_success(&selected.code) {
        return Err(ErrorKind::CourseError(render_message(&selected.msg)));
    }
    let selected_courses = match selected.data {
        Ok(list) => list,
        Err(words) => {
            return Err(ErrorKind::ParseError(words));
        },
    };
    if !code_is_success(&favorite.code) {
        return Err(ErrorKind::CourseError(render_message(&favorite.msg)));
    }
    let favorite_courses = match favorite.data {
        Ok(list) => list,
        Err(words) => {
            return Err(ErrorKind::ParseError(words));
        },
    };
    app_state.selected_courses = selected_courses;
    app_state.favorite_courses = favorite_courses;
    Ok(())
}

} // verus!
