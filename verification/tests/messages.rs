use camera_bot::messages::Messages;

#[test]
fn default_messages() {
    let m = Messages::default();
    assert_eq!(m.welcome, "Добро пожаловать!");
    assert!(m.help_detailed.starts_with("\n*Команды:*\n"));
    assert!(m.help_detailed.contains("• `/find` Найти устройства и запустить обработку изображений\\.\n"));
    assert!(m.help_detailed.ends_with("Остановить обработку изображений\\.\n"));
    assert_eq!(m.unknown, "Я не понял команду.");
    assert_eq!(m.no_device, "Нет устройств (камер).");
    assert_eq!(m.error, "Ошибка.");
    assert_eq!(m.status, "Статус камер.");
    assert_eq!(m.is_device, "Камеры");
    assert_eq!(m.stop, "Камеры прекратили запись");
    assert_eq!(m.search, "Поиск камер...");
    assert_eq!(m.access_denied, "Доступ запрещен");
}
