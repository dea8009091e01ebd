use cocktail_bot::config::{ApiConfiguration, ApiProvider, Application, BotConfig, Config, DbConfiguration, RepositoryFactory};
use cocktail_bot::domain::{favorite_flag, Cocktail, User};
use cocktail_bot::item_id::ItemId;

fn db(user: &str, password: &str) -> DbConfiguration {
    DbConfiguration {
        mongo_database_name: "bar".to_string(),
        mongo_username: user.to_string(),
        mongo_password: password.to_string(),
        mongo_host: "localhost".to_string(),
        mongo_port: "27017".to_string(),
    }
}

#[test]
fn connection_string_with_and_without_credentials() {
    assert_eq!(db("", "").connection_string(), "mongodb://localhost:27017");
    assert_eq!(db("admin", "").connection_string(), "mongodb://localhost:27017");
    assert_eq!(db("admin", "pw").connection_string(), "mongodb://admin:pw@localhost:27017");
}

#[test]
fn startup_objects_keep_their_settings() {
    let factory = RepositoryFactory::new(&db("u", "p"));
    assert_eq!(factory.db_configuration, db("u", "p"));
    let api = ApiProvider::new(&ApiConfiguration { http_port: 8080 });
    assert_eq!(api.api_configuration.http_port, 8080);
    let config = Config {
        bot_conf: BotConfig { bot_token: "t".to_string() },
        db_configuration: db("", ""),
        api_configuration: ApiConfiguration { http_port: 80 },
    };
    assert_eq!(Application::new(config.clone()).config, config);
}

#[test]
fn favorites_are_a_set() {
    let mut user = User { id: 1, telegram_id: 5, favorite_cocktails: vec![ItemId(1), ItemId(2), ItemId(1)] };
    assert!(user.is_favorite(&ItemId(1)));
    user.set_favorite(ItemId(1), false);
    assert_eq!(user.favorite_cocktails, vec![ItemId(2)]);
    user.set_favorite(ItemId(3), true);
    user.set_favorite(ItemId(3), true);
    assert_eq!(user.favorite_cocktails, vec![ItemId(2), ItemId(3)]);
    assert_eq!(favorite_flag(&Some(user.clone()), &ItemId(3)), Some(true));
    assert_eq!(favorite_flag(&Some(user), &ItemId(9)), Some(false));
    assert_eq!(favorite_flag(&None, &ItemId(9)), None);
}

#[test]
fn new_entries_get_fresh_identifiers() {
    let a = Cocktail::new(None, "a".to_string(), None, None, None, None, None, None, None);
    let b = Cocktail::new(Some("B".to_string()), "b".to_string(), None, None, None, None, None, None, None);
    assert_ne!(a.id, b.id);
    assert_eq!(b.name, Some("B".to_string()));
    assert_eq!(b.russian_name, "b");
}
