//! How the bot answers chat messages and button presses.
//!
//! Answering a message alternates between decisions and outside work (reading
//! the users' file, probing the network, sending replies); the decisions are
//! the transition function [`step`], and the caller performs the actions it
//! returns and feeds back what came of them.

use vstd::prelude::*;
use crate::device::{CameraInfo, endpoint_text, push_endpoint};
use crate::messages::Messages;
use crate::text::{
    bool_text, contains_text, decimal, occurs_in, parse_usize, parse_usize_spec, second_field,
    signed_decimal, push_bool, push_decimal, push_signed_decimal, same_text, split_second,
    lemma_parse_decimal, lemma_decimal_digits,
};
use crate::users::{User, Users, access_of, has_user, lemma_register, registered};

verus! {

/// A command of the bot.
#[derive(Debug, Clone, Copy, PartialEq, Eq, Structural)]
pub enum Command {
    Start,
    Help,
    Find,
    Stop,
    Status,
    Access,
    Unknown,
}

/// The command a message text stands for; a message without text, or with
/// any other text, is not understood.
pub open spec fn command_of(text: Option<Seq<char>>) -> Command {
    match text {
        None => Command::Unknown,
        Some(t) => if t == "/start"@ {
            Command::Start
        } else if t == "/help"@ {
            Command::Help
        } else if t == "/find"@ {
            Command::Find
        } else if t == "/stop"@ {
            Command::Stop
        } else if t == "/status"@ {
            Command::Status
        } else if t == "/access"@ {
            Command::Access
        } else {
            Command::Unknown
        },
    }
}

pub open spec fn opt_text(t: Option<&str>) -> Option<Seq<char>> {
    match t {
        Some(s) => Some(s@),
        None => None,
    }
}

pub open spec fn opt_string(t: Option<String>) -> Option<Seq<char>> {
    match t {
        Some(s) => Some(s@),
        None => None,
    }
}

/// Reads the command of a message.
pub fn parse_command(text: Option<&str>) -> (c: Command)
    ensures
        c == command_of(opt_text(text)),
{
    match text {
        None => Command::Unknown,
        Some(t) => {
            if same_text(t, "/start") {
                Command::Start
            } else if same_text(t, "/help") {
                Command::Help
            } else if same_text(t, "/find") {
                Command::Find
            } else if same_text(t, "/stop") {
                Command::Stop
            } else if same_text(t, "/status") {
                Command::Status
            } else if same_text(t, "/access") {
                Command::Access
            } else {
                Command::Unknown
            }
        },
    }
}

/// A button under a reply: its label and the data it sends back when pressed.
#[derive(Debug, Clone)]
pub struct Button {
    pub text: String,
    pub data: String,
}

/// A reply to send to the chat.
#[derive(Debug, Clone)]
pub struct Reply {
    pub text: String,
    /// Whether the text is MarkdownV2.
    pub markdown: bool,
    /// Rows of buttons under the reply, when there is a keyboard.
    pub keyboard: Option<Vec<Vec<Button>>>,
}

pub open spec fn button_is(b: Button, text: Seq<char>, data: Seq<char>) -> bool {
    b.text@ == text && b.data@ == data
}

/// A plain text reply without buttons.
pub open spec fn is_plain_reply(r: Reply, text: Seq<char>) -> bool {
    r.text@ == text && !r.markdown && r.keyboard is None
}

fn plain_reply(text: String) -> (r: Reply)
    ensures
        is_plain_reply(r, text@),
{
    Reply { text, markdown: false, keyboard: None }
}

fn copy_text(s: &String) -> (r: String)
    ensures
        r@ == s@,
{
    s.clone()
}

/// Label of the button that shows camera `c`.
pub open spec fn camera_button_text(c: CameraInfo) -> Seq<char> {
    "Камера "@ + c.id@
}

/// Data sent back by the button of the camera at position `index`.
pub open spec fn camera_button_data(index: nat) -> Seq<char> {
    "camera_"@ + decimal(index)
}

/// The keyboard that offers the cameras: two buttons per row, in list order.
pub open spec fn is_camera_keyboard(kb: Seq<Vec<Button>>, cameras: Seq<CameraInfo>) -> bool {
    &&& kb.len() == (cameras.len() + 1) / 2
    &&& forall|r: int|
        0 <= r < kb.len() ==> #[trigger] kb[r]@.len() == (if 2 * r + 1 < cameras.len() {
            2int
        } else {
            1int
        })
    &&& forall|r: int, k: int|
        0 <= r < kb.len() && 0 <= k < kb[r]@.len() ==> button_is(
            #[trigger] kb[r]@[k],
            camera_button_text(cameras[2 * r + k]),
            camera_button_data((2 * r + k) as nat),
        )
}

fn camera_button(c: &CameraInfo, index: usize) -> (b: Button)
    ensures
        button_is(b, camera_button_text(*c), camera_button_data(index as nat)),
{
    let mut text = String::from_str("Камера ");
    text.append(c.id.as_str());
    let mut data = String::from_str("camera_");
    push_decimal(&mut data, index as u64);
    Button { text, data }
}

/// Lays out one button per camera, two per row.
pub fn camera_keyboard(cameras: &Vec<CameraInfo>) -> (kb: Vec<Vec<Button>>)
    ensures
        is_camera_keyboard(kb@, cameras@),
{
    let n: usize = cameras.len();
    let mut kb: Vec<Vec<Button>> = Vec::new();
    let mut r: usize = 0;
    while r < n / 2 + n % 2
        invariant
            n == cameras@.len(),
            r <= n / 2 + n % 2,
            kb@.len() == r,
            forall|q: int|
                0 <= q < r ==> #[trigger] kb@[q]@.len() == (if 2 * q + 1 < n {
                    2int
                } else {
                    1int
                }),
            forall|q: int, k: int|
                0 <= q < r && 0 <= k < kb@[q]@.len() ==> button_is(
                    #[trigger] kb@[q]@[k],
                    camera_button_text(cameras@[2 * q + k]),
                    camera_button_data((2 * q + k) as nat),
                ),
        decreases n / 2 + n % 2 - r,
    {
        let mut row: Vec<Button> = Vec::new();
        row.push(camera_button(&cameras[2 * r], 2 * r));
        if 2 * r + 1 < n {
            row.push(camera_button(&cameras[2 * r + 1], 2 * r + 1));
        }
        kb.push(row);
        r = r + 1;
    }
    assert((n + 1) / 2 == n / 2 + n % 2);
    kb
}

/// Label of the button that shows user `u` to an administrator.
pub open spec fn user_button_text(u: User) -> Seq<char> {
    signed_decimal(u.chat_id as int) + " "@ + u.username@ + " "@ + bool_text(u.is_active)
}

/// Data sent back by the button of user `u`.
pub open spec fn user_button_data(u: User) -> Seq<char> {
    "user_"@ + signed_decimal(u.chat_id as int) + "|"@ + bool_text(u.is_active)
}

/// The users that are not administrators, in list order.
pub open spec fn non_admins(s: Seq<User>) -> Seq<User>
    decreases s.len(),
{
    if s.len() == 0 {
        s
    } else {
        let rest = non_admins(s.drop_last());
        if !s.last().is_admin {
            rest.push(s.last())
        } else {
            rest
        }
    }
}

/// One button per user that is not an administrator, in list order.
pub open spec fn is_user_row(row: Seq<Button>, users: Seq<User>) -> bool {
    &&& row.len() == non_admins(users).len()
    &&& forall|k: int|
        0 <= k < row.len() ==> button_is(
            #[trigger] row[k],
            user_button_text(non_admins(users)[k]),
            user_button_data(non_admins(users)[k]),
        )
}

fn user_button(u: &User) -> (b: Button)
    ensures
        button_is(b, user_button_text(*u), user_button_data(*u)),
{
    proof {
        reveal_strlit(" ");
        reveal_strlit("|");
    }
    let mut text = String::new();
    push_signed_decimal(&mut text, u.chat_id);
    text.append(" ");
    text.append(u.username.as_str());
    text.append(" ");
    push_bool(&mut text, u.is_active);
    let mut data = String::from_str("user_");
    push_signed_decimal(&mut data, u.chat_id);
    data.append("|");
    push_bool(&mut data, u.is_active);
    proof {
        assert(text@ =~= user_button_text(*u));
        assert(data@ =~= user_button_data(*u));
    }
    Button { text, data }
}

/// The buttons an administrator gets for managing users.
pub fn user_row(users: &Vec<User>) -> (row: Vec<Button>)
    ensures
        is_user_row(row@, users@),
{
    let mut row: Vec<Button> = Vec::new();
    let mut i: usize = 0;
    assert(users@.subrange(0, 0) =~= Seq::<User>::empty());
    while i < users.len()
        invariant
            i <= users@.len(),
            is_user_row(row@, users@.subrange(0, i as int)),
        decreases users@.len() - i,
    {
        let ghost before = row@;
        assert(users@.subrange(0, i + 1).drop_last() =~= users@.subrange(0, i as int));
        if !users[i].is_admin {
            row.push(user_button(&users[i]));
        }
        i = i + 1;
        proof {
            let s = users@.subrange(0, i as int);
            assert forall|k: int| 0 <= k < row@.len() implies button_is(
                #[trigger] row@[k],
                user_button_text(non_admins(s)[k]),
                user_button_data(non_admins(s)[k]),
            ) by {
                if k < before.len() {
                    assert(row@[k] == before[k]);
                }
            }
        }
    }
    assert(users@.subrange(0, users@.len() as int) =~= users@);
    row
}

/// `address:port` of every camera, separated by ", ".
pub open spec fn endpoints_joined(cameras: Seq<CameraInfo>) -> Seq<char>
    decreases cameras.len(),
{
    if cameras.len() == 0 {
        Seq::empty()
    } else if cameras.len() == 1 {
        endpoint_text(cameras[0].ip_addres, cameras[0].port)
    } else {
        endpoints_joined(cameras.drop_last()) + ", "@ + endpoint_text(
            cameras.last().ip_addres,
            cameras.last().port,
        )
    }
}

/// The status reply: the status heading, then the cameras' addresses.
pub open spec fn status_text(heading: Seq<char>, cameras: Seq<CameraInfo>) -> Seq<char> {
    heading + ": "@ + endpoints_joined(cameras)
}

/// Builds the status reply text.
pub fn status_reply_text(heading: &str, cameras: &Vec<CameraInfo>) -> (t: String)
    ensures
        t@ == status_text(heading@, cameras@),
{
    let mut t = String::from_str(heading);
    proof { reveal_strlit(": "); reveal_strlit(", "); }
    t.append(": ");
    let ghost head = t@;
    let mut i: usize = 0;
    assert(cameras@.subrange(0, 0) =~= Seq::<CameraInfo>::empty());
    assert(head =~= head + endpoints_joined(cameras@.subrange(0, 0)));
    while i < cameras.len()
        invariant
            i <= cameras@.len(),
            t@ == head + endpoints_joined(cameras@.subrange(0, i as int)),
        decreases cameras@.len() - i,
    {
        let ghost before = t@;
        let ghost s = cameras@.subrange(0, i + 1);
        if i > 0 {
            t.append(", ");
        }
        push_endpoint(&mut t, cameras[i].ip_addres, cameras[i].port);
        assert(s.drop_last() =~= cameras@.subrange(0, i as int));
        assert(s.last() == cameras@[i as int]);
        if i == 0 {
            assert(s.len() == 1);
            assert(t@ =~= head + endpoints_joined(s));
        } else {
            assert(t@ =~= head + endpoints_joined(s));
        }
        i = i + 1;
    }
    assert(cameras@.subrange(0, cameras@.len() as int) =~= cameras@);
    t
}

/// What the search reports: how many cameras were found, or that the local
/// camera will be tried.
pub open spec fn found_text(heading: Seq<char>, count: nat) -> Seq<char> {
    if count > 0 {
        heading + ": "@ + decimal(count) + " ед."@
    } else {
        "Камер нет, пробуем подключиться к локальной"@
    }
}

/// Builds the search report.
pub fn found_reply_text(heading: &str, count: usize) -> (t: String)
    ensures
        t@ == found_text(heading@, count as nat),
{
    if count > 0 {
        let mut t = String::from_str(heading);
        t.append(": ");
        push_decimal(&mut t, count as u64);
        t.append(" ед.");
        t
    } else {
        String::from_str("Камер нет, пробуем подключиться к локальной")
    }
}


/// Where the answer to one message stands.
#[derive(Debug)]
pub enum Stage {
    /// Waiting for the message.
    Idle,
    /// Waiting for the users' file, to answer `command` for the chat.
    AwaitingUsers { command: Command, chat_id: i64, username: Option<String> },
    /// Waiting for the result of the network search.
    AwaitingDiscovery,
    /// Waiting for the list of cameras.
    AwaitingCameras,
    /// The answer is complete.
    Done,
}

/// What the caller reports back.
#[derive(Debug)]
pub enum Event {
    /// A chat message, with the chat's username when it has one.
    Message { chat_id: i64, username: Option<String>, text: Option<String> },
    /// The users as read from their file.
    UsersLoaded(Users),
    /// The cameras the network search found, or `None` when it failed.
    Discovered(Option<Vec<CameraInfo>>),
    /// The cameras currently known.
    CamerasLoaded(Vec<CameraInfo>),
}

/// What the caller is to do, in order.
#[derive(Debug)]
pub enum Action {
    /// Send a reply to the chat.
    Send(Reply),
    /// Read the users' file and report `Event::UsersLoaded`.
    LoadUsers,
    /// Write these users to their file.
    SaveUsers(Users),
    /// Search the network for cameras and report `Event::Discovered`.
    Discover,
    /// Add these found cameras to the known ones (see `device::merge_cameras`).
    RecordCameras(Vec<CameraInfo>),
    /// Start capturing from the known cameras in the background.
    SpawnWorker,
    /// Tell every capture task to stop.
    BroadcastStop,
    /// Read the known cameras and report `Event::CamerasLoaded`.
    LoadCameras,
}

pub open spec fn sends_plain(a: Action, text: Seq<char>) -> bool {
    a matches Action::Send(r) && is_plain_reply(r, text)
}

/// The name a chat is registered under: its username, or "no name".
pub open spec fn registered_name(username: Option<String>) -> Seq<char> {
    match username {
        Some(u) => u@,
        None => "no name"@,
    }
}

/// The prompt above the camera buttons.
pub open spec fn camera_prompt() -> Seq<char> {
    "Выбрать камеру и загрузить изображение:"@
}

/// The heading of the administrator's user list.
pub open spec fn members_heading() -> Seq<char> {
    "Участники:"@
}

/// The commands that only an active user may give.
pub open spec fn needs_active(c: Command) -> bool {
    c == Command::Find || c == Command::Stop || c == Command::Status
}

/// The answer to a message, given the current stage and what was reported.
pub open spec fn step_result(stage: Stage, event: Event, m: Messages, next: Stage, actions: Seq<Action>) -> bool {
    match (stage, event) {
        (Stage::Idle, Event::Message { chat_id, username, text }) => {
            let c = command_of(opt_string(text));
            if c == Command::Help {
                &&& next is Done
                &&& actions.len() == 1
                &&& actions[0] matches Action::Send(r)
                &&& r.text@ == m.help_detailed@ && r.markdown && r.keyboard is None
            } else if c == Command::Unknown {
                &&& next is Done
                &&& actions.len() == 1
                &&& sends_plain(actions[0], m.unknown@)
            } else {
                &&& next == Stage::AwaitingUsers { command: c, chat_id, username }
                &&& actions.len() == 1
                &&& actions[0] is LoadUsers
            }
        },
        (Stage::AwaitingUsers { command, chat_id, username }, Event::UsersLoaded(users)) => {
            let (active, admin) = access_of(users.users@, chat_id);
            if command == Command::Start {
                &&& next is Done
                &&& actions.len() == 2
                &&& actions[0] matches Action::SaveUsers(saved)
                &&& saved.path == users.path
                &&& registered(users.users@, saved.users@, chat_id, registered_name(username))
                &&& sends_plain(actions[1], m.welcome@)
            } else if needs_active(command) && !active {
                &&& next is Done
                &&& actions.len() == 1
                &&& sends_plain(actions[0], m.access_denied@)
            } else if command == Command::Find {
                &&& next is AwaitingDiscovery
                &&& actions.len() == 2
                &&& sends_plain(actions[0], m.search@)
                &&& actions[1] is Discover
            } else if command == Command::Stop {
                &&& next is Done
                &&& actions.len() == 2
                &&& actions[0] is BroadcastStop
                &&& sends_plain(actions[1], m.stop@)
            } else if command == Command::Status {
                &&& next is AwaitingCameras
                &&& actions.len() == 1
                &&& actions[0] is LoadCameras
            } else if command == Command::Access && active && admin {
                &&& next is Done
                &&& actions.len() == 1
                &&& actions[0] matches Action::Send(r)
                &&& r.text@ == members_heading()
                &&& !r.markdown
                &&& r.keyboard matches Some(kb)
                &&& kb@.len() == 1
                &&& is_user_row(kb@[0]@, users.users@)
            } else {
                next is Done && actions.len() == 0
            }
        },
        (Stage::AwaitingDiscovery, Event::Discovered(found)) => {
            &&& next is Done
            &&& match found {
                Some(cameras) => {
                    &&& actions.len() == 3
                    &&& sends_plain(actions[0], found_text(m.is_device@, cameras@.len()))
                    &&& actions[1] matches Action::RecordCameras(recorded)
                    &&& recorded@ == cameras@
                    &&& actions[2] is SpawnWorker
                },
                None => actions.len() == 1 && sends_plain(actions[0], m.error@),
            }
        },
        (Stage::AwaitingCameras, Event::CamerasLoaded(cameras)) => {
            &&& next is Done
            &&& if cameras@.len() == 0 {
                actions.len() == 1 && sends_plain(actions[0], m.no_device@)
            } else {
                &&& actions.len() == 2
                &&& sends_plain(actions[0], status_text(m.status@, cameras@))
                &&& actions[1] matches Action::Send(r)
                &&& r.text@ == camera_prompt()
                &&& !r.markdown
                &&& r.keyboard matches Some(kb)
                &&& is_camera_keyboard(kb@, cameras@)
            }
        },
        _ => next is Done && actions.len() == 0,
    }
}

/// A chat that is not active gets nothing but the refusal for the commands
/// that need an active user: no search, no stop, no camera list.
pub proof fn lemma_inactive_chat_refused(
    command: Command,
    chat_id: i64,
    username: Option<String>,
    users: Users,
    m: Messages,
    next: Stage,
    actions: Seq<Action>,
)
    requires
        needs_active(command),
        !access_of(users.users@, chat_id).0,
        step_result(
            Stage::AwaitingUsers { command, chat_id, username },
            Event::UsersLoaded(users),
            m,
            next,
            actions,
        ),
    ensures
        next is Done,
        actions.len() == 1,
        sends_plain(actions[0], m.access_denied@),
{
}

/// The user list is shown only to a chat that is both active and an
/// administrator; any other chat gets no answer to `/access`.
pub proof fn lemma_access_list_for_admins_only(
    chat_id: i64,
    username: Option<String>,
    users: Users,
    m: Messages,
    next: Stage,
    actions: Seq<Action>,
)
    requires
        step_result(
            Stage::AwaitingUsers { command: Command::Access, chat_id, username },
            Event::UsersLoaded(users),
            m,
            next,
            actions,
        ),
    ensures
        next is Done,
        actions.len() > 0 <==> (access_of(users.users@, chat_id).0 && access_of(users.users@, chat_id).1),
{
}

/// `/start` saves the chat without granting it anything: a new chat is
/// neither active nor an administrator, and no other chat's access changes.
pub proof fn lemma_start_grants_nothing(
    chat_id: i64,
    username: Option<String>,
    users: Users,
    m: Messages,
    next: Stage,
    actions: Seq<Action>,
)
    requires
        step_result(
            Stage::AwaitingUsers { command: Command::Start, chat_id, username },
            Event::UsersLoaded(users),
            m,
            next,
            actions,
        ),
    ensures
        actions[0] matches Action::SaveUsers(saved) && {
            &&& has_user(saved.users@, chat_id)
            &&& !has_user(users.users@, chat_id) ==> access_of(saved.users@, chat_id) == (false, false)
            &&& has_user(users.users@, chat_id) ==> saved.users@ == users.users@
            &&& forall|d: i64| d != chat_id ==> access_of(saved.users@, d) == access_of(users.users@, d)
        },
{
    if let Action::SaveUsers(saved) = actions[0] {
        lemma_register(users.users@, saved.users@, chat_id, registered_name(username));
    }
}

fn send_plain(text: String) -> (a: Action)
    ensures
        sends_plain(a, text@),
{
    Action::Send(plain_reply(text))
}

/// Decides the next stage of answering a message and what to do meanwhile.
pub fn step(stage: Stage, event: Event, m: &Messages) -> (r: (Stage, Vec<Action>))
    ensures
        step_result(stage, event, *m, r.0, r.1@),
{
    match (stage, event) {
        (Stage::Idle, Event::Message { chat_id, username, text }) => {
            let c = match &text {
                Some(t) => parse_command(Some(t.as_str())),
                None => parse_command(None),
            };
            let mut actions: Vec<Action> = Vec::new();
            match c {
                Command::Help => {
                    actions.push(
                        Action::Send(
                            Reply {
                                text: copy_text(&m.help_detailed),
                                markdown: true,
                                keyboard: None,
                            },
                        ),
                    );
                    (Stage::Done, actions)
                },
                Command::Unknown => {
                    actions.push(send_plain(copy_text(&m.unknown)));
                    (Stage::Done, actions)
                },
                _ => {
                    actions.push(Action::LoadUsers);
                    (Stage::AwaitingUsers { command: c, chat_id, username }, actions)
                },
            }
        },
        (Stage::AwaitingUsers { command, chat_id, username }, Event::UsersLoaded(users)) => {
            let (active, admin) = users.is_access(chat_id);
            let mut actions: Vec<Action> = Vec::new();
            if command == Command::Start {
                let name = match username {
                    Some(u) => u,
                    None => String::from_str("no name"),
                };
                let mut saved = users;
                saved.add_id(chat_id, name);
                actions.push(Action::SaveUsers(saved));
                actions.push(send_plain(copy_text(&m.welcome)));
                (Stage::Done, actions)
            } else if (command == Command::Find || command == Command::Stop || command
                == Command::Status) && !active {
                actions.push(send_plain(copy_text(&m.access_denied)));
                (Stage::Done, actions)
            } else if command == Command::Find {
                actions.push(send_plain(copy_text(&m.search)));
                actions.push(Action::Discover);
                (Stage::AwaitingDiscovery, actions)
            } else if command == Command::Stop {
                actions.push(Action::BroadcastStop);
                actions.push(send_plain(copy_text(&m.stop)));
                (Stage::Done, actions)
            } else if command == Command::Status {
                actions.push(Action::LoadCameras);
                (Stage::AwaitingCameras, actions)
            } else if command == Command::Access && active && admin {
                let row = user_row(users.all_users());
                let mut kb: Vec<Vec<Button>> = Vec::new();
                kb.push(row);
                actions.push(
                    Action::Send(
                        Reply {
                            text: String::from_str("Участники:"),
                            markdown: false,
                            keyboard: Some(kb),
                        },
                    ),
                );
                (Stage::Done, actions)
            } else {
                (Stage::Done, actions)
            }
        },
        (Stage::AwaitingDiscovery, Event::Discovered(found)) => {
            let mut actions: Vec<Action> = Vec::new();
            match found {
                Some(cameras) => {
                    actions.push(send_plain(found_reply_text(m.is_device.as_str(), cameras.len())));
                    actions.push(Action::RecordCameras(cameras));
                    actions.push(Action::SpawnWorker);
                },
                None => {
                    actions.push(send_plain(copy_text(&m.error)));
                },
            }
            (Stage::Done, actions)
        },
        (Stage::AwaitingCameras, Event::CamerasLoaded(cameras)) => {
            let mut actions: Vec<Action> = Vec::new();
            if cameras.len() == 0 {
                actions.push(send_plain(copy_text(&m.no_device)));
            } else {
                actions.push(send_plain(status_reply_text(m.status.as_str(), &cameras)));
                let kb = camera_keyboard(&cameras);
                actions.push(
                    Action::Send(
                        Reply {
                            text: String::from_str("Выбрать камеру и загрузить изображение:"),
                            markdown: false,
                            keyboard: Some(kb),
                        },
                    ),
                );
            }
            (Stage::Done, actions)
        },
        _ => (Stage::Done, Vec::new()),
    }
}


/// What a pressed button asks for.
#[derive(Debug, Clone, Copy, PartialEq, Eq, Structural)]
pub enum CallbackRequest {
    /// Not a camera button: nothing to do.
    Ignored,
    /// A camera button whose index does not read as a number.
    BadIndex,
    /// The images of the camera at this position.
    Camera(usize),
}

/// What the data of a pressed button asks for: data that holds `camera_`
/// names a camera by the number between its first and second `_`.
pub open spec fn callback_request(data: Option<Seq<char>>) -> CallbackRequest {
    match data {
        None => CallbackRequest::Ignored,
        Some(d) => if !occurs_in(d, "camera_"@) {
            CallbackRequest::Ignored
        } else {
            match parse_usize_spec(second_field(d, '_')) {
                Some(i) => CallbackRequest::Camera(i),
                None => CallbackRequest::BadIndex,
            }
        },
    }
}

/// Reads the data of a pressed button.
pub fn parse_camera_callback(data: Option<&str>) -> (r: CallbackRequest)
    ensures
        r == callback_request(opt_text(data)),
{
    match data {
        None => CallbackRequest::Ignored,
        Some(d) => {
            if !contains_text(d, "camera_") {
                return CallbackRequest::Ignored;
            }
            proof {
                reveal_strlit("camera_");
                let k: int = choose|k: int|
                    0 <= k && k + "camera_"@.len() <= d@.len() && #[trigger] d@.subrange(
                        k,
                        k + "camera_"@.len(),
                    ) == "camera_"@;
                assert(d@.subrange(k, k + 7)[6] == '_');
                assert(d@[k + 6] == '_');
            }
            match split_second(d, '_') {
                Some(field) => match parse_usize(field.as_str()) {
                    Some(i) => CallbackRequest::Camera(i),
                    None => CallbackRequest::BadIndex,
                },
                None => CallbackRequest::Ignored,
            }
        },
    }
}

proof fn lemma_button_data_prefix(digits: Seq<char>)
    requires
        !digits.contains('_'),
    ensures
        occurs_in("camera_"@ + digits, "camera_"@),
        second_field("camera_"@ + digits, '_') == digits,
{
    reveal_strlit("camera_");
    let d = "camera_"@ + digits;
    assert("camera_"@.len() == 7);
    assert(d.subrange(0int, 0int + "camera_"@.len()) =~= "camera_"@);
    assert(crate::text::is_first_sep(d, '_', 6));
    crate::text::lemma_first_sep(d, '_', 6);
    let rest = d.subrange(7, d.len() as int);
    assert(rest =~= digits);
    assert(crate::text::is_first_sep(rest, '_', rest.len() as int)) by {
        assert forall|j: int| 0 <= j < rest.len() implies rest[j] != '_' by {
            if rest[j] == '_' {
                assert(digits[j] == '_');
            }
        }
    }
    crate::text::lemma_first_sep(rest, '_', rest.len() as int);
    assert(rest.subrange(0, rest.len() as int) =~= digits);
}

/// A camera button, when pressed, asks for the images of the very camera it
/// was made for.
pub proof fn lemma_camera_button_round_trip(index: usize)
    ensures
        callback_request(Some(camera_button_data(index as nat))) == CallbackRequest::Camera(index),
{
    lemma_decimal_digits(index as nat);
    lemma_parse_decimal(index);
    lemma_button_data_prefix(decimal(index as nat));
}

/// Every button of the camera keyboard, when pressed, asks for the images of
/// the camera whose label it carries.
pub proof fn lemma_keyboard_button_selects_its_camera(
    kb: Seq<Vec<Button>>,
    cameras: Seq<CameraInfo>,
    r: int,
    k: int,
)
    requires
        is_camera_keyboard(kb, cameras),
        cameras.len() <= usize::MAX,
        0 <= r < kb.len(),
        0 <= k < kb[r]@.len(),
    ensures
        2 * r + k < cameras.len(),
        kb[r]@[k].text@ == camera_button_text(cameras[2 * r + k]),
        callback_request(Some(kb[r]@[k].data@)) == CallbackRequest::Camera((2 * r + k) as usize),
{
    assert(button_is(kb[r]@[k], camera_button_text(cameras[2 * r + k]), camera_button_data((2 * r + k) as nat)));
    lemma_camera_button_round_trip((2 * r + k) as usize);
}

/// The data of the button made for the camera at `index`.
pub fn camera_button_data_text(index: usize) -> (t: String)
    ensures
        t@ == camera_button_data(index as nat),
{
    let mut t = String::from_str("camera_");
    push_decimal(&mut t, index as u64);
    t
}

/// An image that may exist for the chosen camera.
#[derive(Debug, Clone)]
pub struct PhotoCandidate {
    /// Its file name within the image folder.
    pub file_name: String,
    /// The caption it is sent with.
    pub caption: String,
}

/// An image looked for: `<prefix>-<camera id>.jpg`, sent with the caption
/// naming the camera.
pub open spec fn is_photo_candidate(p: PhotoCandidate, prefix: Seq<char>, c: CameraInfo) -> bool {
    &&& p.file_name@ == prefix + "-"@ + c.id@ + ".jpg"@
    &&& p.caption@ == "Изображение с камеры: "@ + c.id@
}

/// What is done for a pressed camera button.
#[derive(Debug)]
pub enum PhotoPlan {
    /// No camera is known: say so.
    NoDevice(Reply),
    /// Look for these images, in order.
    Look(Vec<PhotoCandidate>),
}

fn photo_candidate(prefix: &str, c: &CameraInfo) -> (p: PhotoCandidate)
    ensures
        is_photo_candidate(p, prefix@, *c),
{
    let mut file_name = String::from_str(prefix);
    file_name.append("-");
    file_name.append(c.id.as_str());
    file_name.append(".jpg");
    let mut caption = String::from_str("Изображение с камеры: ");
    caption.append(c.id.as_str());
    PhotoCandidate { file_name, caption }
}

/// Plans the answer to the button of the camera at `index`: the face image,
/// then the motion image of that camera.
pub fn photo_plan(m: &Messages, cameras: &Vec<CameraInfo>, index: usize) -> (p: PhotoPlan)
    requires
        cameras@.len() == 0 || index < cameras@.len(),
    ensures
        cameras@.len() == 0 ==> (p matches PhotoPlan::NoDevice(r) && is_plain_reply(r, m.no_device@)),
        cameras@.len() > 0 ==> (p matches PhotoPlan::Look(v) && v@.len() == 2 && is_photo_candidate(
            v@[0],
            "face"@,
            cameras@[index as int],
        ) && is_photo_candidate(v@[1], "motion"@, cameras@[index as int])),
{
    if cameras.len() == 0 {
        PhotoPlan::NoDevice(plain_reply(copy_text(&m.no_device)))
    } else {
        let c = &cameras[index];
        let mut v: Vec<PhotoCandidate> = Vec::new();
        v.push(photo_candidate("face", c));
        v.push(photo_candidate("motion", c));
        PhotoPlan::Look(v)
    }
}

/// What was found at an image's path.
#[derive(Debug, Clone, Copy, PartialEq, Eq, Structural)]
pub enum FileLookup {
    /// Nothing could be read there.
    Missing,
    /// A regular file.
    File,
    /// Something that is not a regular file.
    NotFile,
}

/// What to do with one looked-for image.
#[derive(Debug)]
pub enum PhotoStep {
    /// Go on with the next image.
    Skip,
    /// Send the image with this caption.
    SendPhoto(String),
    /// Send this text instead.
    SendText(String),
}

/// An existing image is sent with its caption; a path that is not a file is
/// answered with "Изображений нет"; a missing one is passed over.
pub fn photo_step(candidate: &PhotoCandidate, found: FileLookup) -> (s: PhotoStep)
    ensures
        found == FileLookup::Missing ==> s is Skip,
        found == FileLookup::File ==> (s matches PhotoStep::SendPhoto(c) && c@ == candidate.caption@),
        found == FileLookup::NotFile ==> (s matches PhotoStep::SendText(t) && t@ == "Изображений нет"@),
{
    match found {
        FileLookup::Missing => PhotoStep::Skip,
        FileLookup::File => PhotoStep::SendPhoto(copy_text(&candidate.caption)),
        FileLookup::NotFile => PhotoStep::SendText(String::from_str("Изображений нет")),
    }
}


/// For every count of at least one, the search report is the heading, ": ",
/// the count in decimal and " ед."; only a count of zero gives the text about
/// trying the local camera.
pub proof fn lemma_found_report(heading: Seq<char>, count: nat)
    ensures
        count >= 1 ==> found_text(heading, count) == heading + ": "@ + decimal(count) + " ед."@,
        count == 0 ==> found_text(heading, count) == "Камер нет, пробуем подключиться к локальной"@,
{
}

/// When the search found cameras, the first reply of the answer reports how
/// many, as heading, ": ", the number in decimal and " ед.".
pub proof fn lemma_find_reports_count(
    m: Messages,
    found: Vec<CameraInfo>,
    next: Stage,
    actions: Seq<Action>,
)
    requires
        found@.len() >= 1,
        step_result(Stage::AwaitingDiscovery, Event::Discovered(Some(found)), m, next, actions),
    ensures
        actions.len() == 3,
        actions[0] matches Action::Send(r) && r.text@ == m.is_device@ + ": "@ + decimal(found@.len())
            + " ед."@,
{
    lemma_found_report(m.is_device@, found@.len());
}

/// The users that are not administrators are exactly those the filter
/// `!is_admin` keeps, in list order.
pub proof fn lemma_non_admins_filter(s: Seq<User>)
    ensures
        non_admins(s) == s.filter(|u: User| !u.is_admin),
    decreases s.len(),
{
    reveal(Seq::filter);
    if s.len() > 0 {
        lemma_non_admins_filter(s.drop_last());
    }
}

/// The administrator's row has one button per user that is not an
/// administrator, wherever that user stands, in list order: the k-th button
/// is that of the k-th such user, and every such user has a button.
pub proof fn lemma_user_row_covers_non_admins(row: Seq<Button>, users: Seq<User>)
    requires
        is_user_row(row, users),
    ensures
        row.len() == users.filter(|u: User| !u.is_admin).len(),
        forall|k: int|
            0 <= k < row.len() ==> button_is(
                #[trigger] row[k],
                user_button_text(users.filter(|u: User| !u.is_admin)[k]),
                user_button_data(users.filter(|u: User| !u.is_admin)[k]),
            ),
        forall|i: int|
            0 <= i < users.len() && !users[i].is_admin ==> exists|k: int|
                0 <= k < row.len() && button_is(
                    #[trigger] row[k],
                    user_button_text(users[i]),
                    user_button_data(users[i]),
                ),
{
    lemma_non_admins_filter(users);
    let f = users.filter(|u: User| !u.is_admin);
    assert forall|i: int| 0 <= i < users.len() && !users[i].is_admin implies exists|k: int|
        0 <= k < row.len() && button_is(
            #[trigger] row[k],
            user_button_text(users[i]),
            user_button_data(users[i]),
        ) by {
        users.lemma_filter_contains(|u: User| !u.is_admin, i);
        assert(f.contains(users[i]));
        let k: int = choose|k: int| 0 <= k < f.len() && f[k] == users[i];
        assert(button_is(row[k], user_button_text(f[k]), user_button_data(f[k])));
    }
}

/// Every camera of the list has its button on the keyboard: camera `i` is
/// button `i % 2` of row `i / 2`, labelled with its identifier and sending
/// back `i`; and no row holds more than two buttons.
pub proof fn lemma_keyboard_covers_every_camera(kb: Seq<Vec<Button>>, cameras: Seq<CameraInfo>)
    requires
        is_camera_keyboard(kb, cameras),
    ensures
        forall|i: int|
            0 <= i < cameras.len() ==> {
                &&& i / 2 < kb.len()
                &&& i % 2 < kb[i / 2]@.len()
                &&& button_is(
                    #[trigger] kb[i / 2]@[i % 2],
                    camera_button_text(cameras[i]),
                    camera_button_data(i as nat),
                )
            },
        forall|r: int| 0 <= r < kb.len() ==> 1 <= #[trigger] kb[r]@.len() <= 2,
{
    assert forall|i: int| 0 <= i < cameras.len() implies {
        &&& i / 2 < kb.len()
        &&& i % 2 < kb[i / 2]@.len()
        &&& button_is(
            #[trigger] kb[i / 2]@[i % 2],
            camera_button_text(cameras[i]),
            camera_button_data(i as nat),
        )
    } by {
        let r = i / 2;
        let k = i % 2;
        assert(2 * r + k == i);
        assert(kb[r]@.len() == (if 2 * r + 1 < cameras.len() { 2int } else { 1int }));
    }
}

/// The list of one camera is that camera's `address:port`, and the empty list
/// gives the empty text.
pub proof fn lemma_endpoints_base(c: CameraInfo)
    ensures
        endpoints_joined(seq![c]) == endpoint_text(c.ip_addres, c.port),
        endpoints_joined(Seq::<CameraInfo>::empty()) == Seq::<char>::empty(),
{
}

/// One more camera adds ", " and its `address:port` at the end of the text
/// (only its `address:port` when the list was empty).
pub proof fn lemma_endpoints_push(a: Seq<CameraInfo>, c: CameraInfo)
    ensures
        endpoints_joined(a.push(c)) == if a.len() == 0 {
            endpoint_text(c.ip_addres, c.port)
        } else {
            endpoints_joined(a) + ", "@ + endpoint_text(c.ip_addres, c.port)
        },
{
    assert(a.push(c).drop_last() =~= a);
    if a.len() == 0 {
        assert(a.push(c).len() == 1);
    }
}

/// The text of two lists of cameras one after the other is the texts of
/// both, joined by ", ".
pub proof fn lemma_endpoints_concat(a: Seq<CameraInfo>, b: Seq<CameraInfo>)
    requires
        a.len() > 0,
        b.len() > 0,
    ensures
        endpoints_joined(a + b) == endpoints_joined(a) + ", "@ + endpoints_joined(b),
    decreases b.len(),
{
    let c = b.last();
    let b0 = b.drop_last();
    assert(b =~= b0.push(c));
    assert(a + b =~= (a + b0).push(c));
    lemma_endpoints_push(a + b0, c);
    lemma_endpoints_push(b0, c);
    if b0.len() == 0 {
        assert(a + b0 =~= a);
    } else {
        lemma_endpoints_concat(a, b0);
        assert(endpoints_joined(a + b) =~= endpoints_joined(a) + ", "@ + endpoints_joined(b));
    }
}

} // verus!
