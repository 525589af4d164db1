use baby_actor::config::AppSettings;

#[test]
fn mqtt_config_copies_the_publisher_share() {
    let settings = AppSettings {
        listen: String::from("127.0.0.1:8080"),
        address: String::from("broker.example"),
        display_topic: String::from("display"),
        buffer_topic: String::from("buffer"),
        discord: String::from("hook"),
    };
    let mqtt = settings.get_mqtt_config();
    assert_eq!(mqtt.address, settings.address);
    assert_eq!(mqtt.display_topic, settings.display_topic);
    assert_eq!(mqtt.buffer_topic, settings.buffer_topic);
    assert_eq!(mqtt.discord, settings.discord);
}
