//! The texts the bot answers with.

use vstd::prelude::*;

verus! {

/// Every fixed text of the bot's replies.
pub struct Messages {
    pub welcome: String,
    pub help_detailed: String,
    pub unknown: String,
    pub no_device: String,
    pub error: String,
    pub status: String,
    pub is_device: String,
    pub stop: String,
    pub search: String,
    pub access_denied: String,
}

impl Default for Messages {
    fn default() -> (m: Self)
        ensures
            m.welcome@ == "Добро пожаловать!"@,
            m.help_detailed@ == "\n*Команды:*\n• `/start` Запуск\\.\n• `/find` Найти устройства и запустить обработку изображений\\.\n• `/help` Помощь\\.\n• `/status` Кмеры активны\\, получить изображение\\.\n• `/stop` Остановить обработку изображений\\.\n"@,
            m.unknown@ == "Я не понял команду."@,
            m.no_device@ == "Нет устройств (камер)."@,
            m.error@ == "Ошибка."@,
            m.status@ == "Статус камер."@,
            m.is_device@ == "Камеры"@,
            m.stop@ == "Камеры прекратили запись"@,
            m.search@ == "Поиск камер..."@,
            m.access_denied@ == "Доступ запрещен"@,
    {
        Messages {
            welcome: String::from_str("Добро пожаловать!"),
            help_detailed: String::from_str("\n*Команды:*\n• `/start` Запуск\\.\n• `/find` Найти устройства и запустить обработку изображений\\.\n• `/help` Помощь\\.\n• `/status` Кмеры активны\\, получить изображение\\.\n• `/stop` Остановить обработку изображений\\.\n"),
            unknown: String::from_str("Я не понял команду."),
            no_device: String::from_str("Нет устройств (камер)."),
            error: String::from_str("Ошибка."),
            status: String::from_str("Статус камер."),
            is_device: String::from_str("Камеры"),
            stop: String::from_str("Камеры прекратили запись"),
            search: String::from_str("Поиск камер..."),
            access_denied: String::from_str("Доступ запрещен"),
        }
    }
}

} // verus!
