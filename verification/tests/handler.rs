use camera_bot::device::{CameraInfo, Ipv4Address};
use camera_bot::handler::{
    camera_button_data_text, camera_keyboard, found_reply_text, parse_camera_callback,
    parse_command, photo_plan, photo_step, status_reply_text, step, user_row, Action,
    CallbackRequest, Command, Event, FileLookup, PhotoPlan, PhotoStep, Stage,
};
use camera_bot::messages::Messages;
use camera_bot::time::Timestamp;
use camera_bot::users::{User, Users};

fn cam(id: &str, ip: (u8, u8, u8, u8), port: u16) -> CameraInfo {
    CameraInfo::new(String::new(), Ipv4Address(ip.0, ip.1, ip.2, ip.3), port, id.to_string())
}

fn user(chat_id: i64, name: &str, admin: bool, active: bool) -> User {
    User {
        chat_id,
        date: Timestamp { secs: 0, nanos: 0 },
        username: name.to_string(),
        is_admin: admin,
        is_active: active,
    }
}

fn users_with(list: Vec<User>) -> Users {
    let mut u = Users::new("files/user.json".to_string());
    u.load(list);
    u
}

fn message(chat_id: i64, text: Option<&str>) -> Event {
    Event::Message { chat_id, username: Some("bob".to_string()), text: text.map(|t| t.to_string()) }
}

fn sent_text(a: &Action) -> String {
    match a {
        Action::Send(r) => r.text.clone(),
        other => panic!("not a reply: {:?}", other),
    }
}

#[test]
fn parse_command_reads_each_command() {
    assert_eq!(parse_command(Some("/start")), Command::Start);
    assert_eq!(parse_command(Some("/help")), Command::Help);
    assert_eq!(parse_command(Some("/find")), Command::Find);
    assert_eq!(parse_command(Some("/stop")), Command::Stop);
    assert_eq!(parse_command(Some("/status")), Command::Status);
    assert_eq!(parse_command(Some("/access")), Command::Access);
    assert_eq!(parse_command(Some("/start ")), Command::Unknown);
    assert_eq!(parse_command(Some("hello")), Command::Unknown);
    assert_eq!(parse_command(None), Command::Unknown);
}

#[test]
fn help_is_sent_as_markdown_without_reading_users() {
    let m = Messages::default();
    let (s, a) = step(Stage::Idle, message(1, Some("/help")), &m);
    assert!(matches!(s, Stage::Done));
    assert_eq!(a.len(), 1);
    match &a[0] {
        Action::Send(r) => {
            assert_eq!(r.text, m.help_detailed);
            assert!(r.markdown);
            assert!(r.keyboard.is_none());
        }
        _ => panic!("expected a reply"),
    }
}

#[test]
fn unknown_text_and_missing_text_get_unknown_reply() {
    let m = Messages::default();
    for ev in [message(1, Some("what")), message(1, None)] {
        let (s, a) = step(Stage::Idle, ev, &m);
        assert!(matches!(s, Stage::Done));
        assert_eq!(a.len(), 1);
        assert_eq!(sent_text(&a[0]), "Я не понял команду.");
    }
}

#[test]
fn start_registers_user_and_welcomes() {
    let m = Messages::default();
    let (s, a) = step(Stage::Idle, message(77, Some("/start")), &m);
    assert!(matches!(a[0], Action::LoadUsers));
    let (s, a) = step(s, Event::UsersLoaded(users_with(vec![])), &m);
    assert!(matches!(s, Stage::Done));
    assert_eq!(a.len(), 2);
    match &a[0] {
        Action::SaveUsers(u) => {
            assert_eq!(u.users.len(), 1);
            assert_eq!(u.users[0].chat_id, 77);
            assert_eq!(u.users[0].username, "bob");
            assert!(!u.users[0].is_active);
            assert_eq!(u.path, "files/user.json");
        }
        _ => panic!("expected users to save"),
    }
    assert_eq!(sent_text(&a[1]), "Добро пожаловать!");
}

#[test]
fn start_without_username_registers_no_name() {
    let m = Messages::default();
    let ev = Event::Message { chat_id: 3, username: None, text: Some("/start".to_string()) };
    let (s, _) = step(Stage::Idle, ev, &m);
    let (_, a) = step(s, Event::UsersLoaded(users_with(vec![])), &m);
    match &a[0] {
        Action::SaveUsers(u) => assert_eq!(u.users[0].username, "no name"),
        _ => panic!("expected users to save"),
    }
}

#[test]
fn start_for_known_user_changes_nothing() {
    let m = Messages::default();
    let (s, _) = step(Stage::Idle, message(5, Some("/start")), &m);
    let (_, a) = step(s, Event::UsersLoaded(users_with(vec![user(5, "old", true, true)])), &m);
    match &a[0] {
        Action::SaveUsers(u) => {
            assert_eq!(u.users.len(), 1);
            assert_eq!(u.users[0].username, "old");
            assert!(u.users[0].is_admin);
        }
        _ => panic!("expected users to save"),
    }
}

#[test]
fn inactive_user_is_denied_find_stop_status() {
    let m = Messages::default();
    for cmd in ["/find", "/stop", "/status"] {
        let (s, a) = step(Stage::Idle, message(9, Some(cmd)), &m);
        assert!(matches!(a[0], Action::LoadUsers));
        let (s, a) = step(s, Event::UsersLoaded(users_with(vec![user(9, "x", true, false)])), &m);
        assert!(matches!(s, Stage::Done));
        assert_eq!(a.len(), 1);
        assert_eq!(sent_text(&a[0]), "Доступ запрещен");
    }
}

#[test]
fn find_searches_then_reports_count_and_starts_worker() {
    let m = Messages::default();
    let (s, _) = step(Stage::Idle, message(9, Some("/find")), &m);
    let (s, a) = step(s, Event::UsersLoaded(users_with(vec![user(9, "x", false, true)])), &m);
    assert!(matches!(s, Stage::AwaitingDiscovery));
    assert_eq!(sent_text(&a[0]), "Поиск камер...");
    assert!(matches!(a[1], Action::Discover));
    let found = vec![cam("a", (1, 1, 1, 1), 1), cam("b", (2, 2, 2, 2), 2), cam("c", (3, 3, 3, 3), 3)];
    let (s, a) = step(s, Event::Discovered(Some(found)), &m);
    assert!(matches!(s, Stage::Done));
    assert_eq!(a.len(), 3);
    assert_eq!(sent_text(&a[0]), "Камеры: 3 ед.");
    match &a[1] {
        Action::RecordCameras(c) => {
            assert_eq!(c.len(), 3);
            assert_eq!(c[1].id, "b");
        }
        _ => panic!("expected cameras to record"),
    }
    assert!(matches!(a[2], Action::SpawnWorker));
}

#[test]
fn find_with_no_camera_still_starts_worker() {
    let m = Messages::default();
    let (_, a) = step(Stage::AwaitingDiscovery, Event::Discovered(Some(vec![])), &m);
    assert_eq!(sent_text(&a[0]), "Камер нет, пробуем подключиться к локальной");
    assert!(matches!(&a[1], Action::RecordCameras(c) if c.is_empty()));
    assert!(matches!(a[2], Action::SpawnWorker));
}

#[test]
fn failed_search_reports_error_only() {
    let m = Messages::default();
    let (s, a) = step(Stage::AwaitingDiscovery, Event::Discovered(None), &m);
    assert!(matches!(s, Stage::Done));
    assert_eq!(a.len(), 1);
    assert_eq!(sent_text(&a[0]), "Ошибка.");
}

#[test]
fn stop_broadcasts_then_confirms() {
    let m = Messages::default();
    let (s, _) = step(Stage::Idle, message(9, Some("/stop")), &m);
    let (s, a) = step(s, Event::UsersLoaded(users_with(vec![user(9, "x", false, true)])), &m);
    assert!(matches!(s, Stage::Done));
    assert!(matches!(a[0], Action::BroadcastStop));
    assert_eq!(sent_text(&a[1]), "Камеры прекратили запись");
}

#[test]
fn status_without_cameras_says_no_device() {
    let m = Messages::default();
    let (s, _) = step(Stage::Idle, message(9, Some("/status")), &m);
    let (s, a) = step(s, Event::UsersLoaded(users_with(vec![user(9, "x", false, true)])), &m);
    assert!(matches!(s, Stage::AwaitingCameras));
    assert!(matches!(a[0], Action::LoadCameras));
    let (_, a) = step(s, Event::CamerasLoaded(vec![]), &m);
    assert_eq!(a.len(), 1);
    assert_eq!(sent_text(&a[0]), "Нет устройств (камер).");
}

#[test]
fn status_lists_cameras_and_offers_buttons() {
    let m = Messages::default();
    let cams = vec![
        cam("a", (192, 168, 1, 10), 3702),
        cam("b", (10, 0, 0, 1), 80),
        cam("c", (127, 0, 0, 1), 1),
    ];
    let (s, a) = step(Stage::AwaitingCameras, Event::CamerasLoaded(cams), &m);
    assert!(matches!(s, Stage::Done));
    assert_eq!(a.len(), 2);
    assert_eq!(
        sent_text(&a[0]),
        "Статус камер.: 192.168.1.10:3702, 10.0.0.1:80, 127.0.0.1:1"
    );
    match &a[1] {
        Action::Send(r) => {
            assert_eq!(r.text, "Выбрать камеру и загрузить изображение:");
            let kb = r.keyboard.as_ref().unwrap();
            assert_eq!(kb.len(), 2);
            assert_eq!(kb[0].len(), 2);
            assert_eq!(kb[1].len(), 1);
            assert_eq!(kb[0][0].text, "Камера a");
            assert_eq!(kb[0][0].data, "camera_0");
            assert_eq!(kb[0][1].data, "camera_1");
            assert_eq!(kb[1][0].text, "Камера c");
            assert_eq!(kb[1][0].data, "camera_2");
        }
        _ => panic!("expected a reply"),
    }
}

#[test]
fn access_lists_non_admins_for_active_admin() {
    let m = Messages::default();
    let list = vec![user(1, "boss", true, true), user(-20, "eve", false, false), user(30, "joe", false, true)];
    let (s, _) = step(Stage::Idle, message(1, Some("/access")), &m);
    let (s, a) = step(s, Event::UsersLoaded(users_with(list)), &m);
    assert!(matches!(s, Stage::Done));
    assert_eq!(a.len(), 1);
    match &a[0] {
        Action::Send(r) => {
            assert_eq!(r.text, "Участники:");
            let kb = r.keyboard.as_ref().unwrap();
            assert_eq!(kb.len(), 1);
            assert_eq!(kb[0].len(), 2);
            assert_eq!(kb[0][0].text, "-20 eve false");
            assert_eq!(kb[0][0].data, "user_-20|false");
            assert_eq!(kb[0][1].text, "30 joe true");
            assert_eq!(kb[0][1].data, "user_30|true");
        }
        _ => panic!("expected a reply"),
    }
}

#[test]
fn access_for_non_admin_sends_nothing() {
    let m = Messages::default();
    let (s, _) = step(Stage::Idle, message(2, Some("/access")), &m);
    let (s, a) = step(s, Event::UsersLoaded(users_with(vec![user(2, "x", false, true)])), &m);
    assert!(matches!(s, Stage::Done));
    assert!(a.is_empty());
}

#[test]
fn unexpected_event_ends_answer() {
    let m = Messages::default();
    let (s, a) = step(Stage::Idle, Event::Discovered(None), &m);
    assert!(matches!(s, Stage::Done));
    assert!(a.is_empty());
}

#[test]
fn camera_keyboard_of_single_camera() {
    let kb = camera_keyboard(&vec![cam("x", (1, 2, 3, 4), 5)]);
    assert_eq!(kb.len(), 1);
    assert_eq!(kb[0].len(), 1);
    assert!(camera_keyboard(&vec![]).is_empty());
}

#[test]
fn user_row_skips_admins() {
    let row = user_row(&vec![user(1, "a", true, true)]);
    assert!(row.is_empty());
}

#[test]
fn status_and_found_texts() {
    assert_eq!(status_reply_text("S", &vec![cam("x", (0, 0, 0, 0), 65535)]), "S: 0.0.0.0:65535");
    assert_eq!(found_reply_text("Камеры", 12), "Камеры: 12 ед.");
}

#[test]
fn callback_data_is_read() {
    assert_eq!(parse_camera_callback(Some("camera_3")), CallbackRequest::Camera(3));
    assert_eq!(parse_camera_callback(Some("camera_+4")), CallbackRequest::Camera(4));
    assert_eq!(parse_camera_callback(Some("camera_12_x")), CallbackRequest::Camera(12));
    assert_eq!(parse_camera_callback(Some("xcamera_7")), CallbackRequest::Camera(7));
    assert_eq!(parse_camera_callback(Some("a_camera_7")), CallbackRequest::BadIndex);
    assert_eq!(parse_camera_callback(Some("camera_")), CallbackRequest::BadIndex);
    assert_eq!(parse_camera_callback(Some("camera_-1")), CallbackRequest::BadIndex);
    assert_eq!(
        parse_camera_callback(Some("camera_99999999999999999999999")),
        CallbackRequest::BadIndex
    );
    assert_eq!(parse_camera_callback(Some("user_5|true")), CallbackRequest::Ignored);
    assert_eq!(parse_camera_callback(None), CallbackRequest::Ignored);
}

#[test]
fn camera_button_round_trip() {
    for i in [0usize, 1, 9, 10, 123, usize::MAX] {
        let data = camera_button_data_text(i);
        assert_eq!(parse_camera_callback(Some(&data)), CallbackRequest::Camera(i));
    }
}

#[test]
fn photo_plan_looks_for_face_then_motion() {
    let m = Messages::default();
    match photo_plan(&m, &vec![cam("a", (1, 1, 1, 1), 1), cam("b", (2, 2, 2, 2), 2)], 1) {
        PhotoPlan::Look(v) => {
            assert_eq!(v.len(), 2);
            assert_eq!(v[0].file_name, "face-b.jpg");
            assert_eq!(v[1].file_name, "motion-b.jpg");
            assert_eq!(v[0].caption, "Изображение с камеры: b");
        }
        _ => panic!("expected images to look for"),
    }
    match photo_plan(&m, &vec![], 5) {
        PhotoPlan::NoDevice(r) => assert_eq!(r.text, "Нет устройств (камер)."),
        _ => panic!("expected no device"),
    }
}

#[test]
fn photo_step_per_lookup() {
    let m = Messages::default();
    let plan = photo_plan(&m, &vec![cam("z", (1, 1, 1, 1), 1)], 0);
    let c = match plan {
        PhotoPlan::Look(v) => v[0].clone(),
        _ => panic!(),
    };
    assert!(matches!(photo_step(&c, FileLookup::Missing), PhotoStep::Skip));
    match photo_step(&c, FileLookup::File) {
        PhotoStep::SendPhoto(cap) => assert_eq!(cap, "Изображение с камеры: z"),
        _ => panic!(),
    }
    match photo_step(&c, FileLookup::NotFile) {
        PhotoStep::SendText(t) => assert_eq!(t, "Изображений нет"),
        _ => panic!(),
    }
}
