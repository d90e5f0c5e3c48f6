use cactive_hypixel_api::client::Client;

#[test]
fn nickname_history_url_embeds_key_cache_and_nickname() {
    let client = Client::new("K".to_owned(), false);
    let url = client.nickname_history_url("angry_and_free");
    assert!(url.contains("key=K&cache=false&nickname=angry_and_free"));
    assert_eq!(
        url,
        "https://hypixel.cactive.network/api/v3/nickname-history?key=K&cache=false&nickname=angry_and_free"
    );
}

#[test]
fn cache_flag_serializes_as_true_and_false() {
    let client = Client::new("K".to_owned(), true);
    let url = client.nickname_history_url("n");
    assert!(url.contains("&cache=true&"));
    let client = Client::new("K".to_owned(), false);
    let url = client.nickname_history_url("n");
    assert!(url.contains("&cache=false&"));
}

#[test]
fn player_data_url_embeds_uuid() {
    let client = Client::new("secret".to_owned(), true);
    let url = client.player_data_url("eea2d4fd-a8b8-413b-9439-f06faaf7e109");
    assert_eq!(
        url,
        "https://hypixel.cactive.network/api/v3/player-data?key=secret&cache=true&uuid=eea2d4fd-a8b8-413b-9439-f06faaf7e109"
    );
}

#[test]
fn staff_tracker_url_embeds_filter() {
    let client = Client::new("K".to_owned(), false);
    let url = client.staff_tracker_url("online");
    assert_eq!(
        url,
        "https://hypixel.cactive.network/api/v3/staff-tracker?key=K&cache=false&filter=online"
    );
}

#[test]
fn punishment_url_reuses_the_staff_tracker_path() {
    let client = Client::new("K".to_owned(), false);
    let url = client.punishment_data_url("C256D602");
    assert_eq!(
        url,
        "https://hypixel.cactive.network/api/v3/staff-tracker?key=K&cache=false&id=C256D602"
    );
}

#[test]
fn key_data_url_embeds_only_the_looked_up_key() {
    let client = Client::new("own-key".to_owned(), true);
    let url = client.key_data_url("other-key");
    assert_eq!(url, "https://hypixel.cactive.network/api/v3/key?key=other-key");
    assert!(!url.contains("own-key"));
    assert!(!url.contains("cache"));
}
