use design_patterns::bridge::{AdvancedRemove, BasicRemote, Device, HashMutableDevice, Radio, Remote, Tv};

#[test]
fn basic_remote_toggles_power() {
    let mut remote = BasicRemote::new(Tv::default());
    assert!(!remote.device().is_enabled());
    remote.power();
    assert!(remote.device().is_enabled());
    remote.power();
    assert!(!remote.device().is_enabled());
}

#[test]
fn advanced_remote_mutes() {
    let mut remote = AdvancedRemove::new(Radio::default());
    remote.power();
    remote.mute();
    assert_eq!(remote.device().volume(), 0);
    assert!(remote.device().is_enabled());
    assert_eq!(remote.device().channel(), 1);
}

#[test]
fn volume_steps_and_cap() {
    let mut remote = BasicRemote::new(Radio::default());
    remote.volume_up();
    assert_eq!(remote.device().volume(), 40);
    remote.volume_down();
    remote.volume_down();
    assert_eq!(remote.device().volume(), 20);
    remote.device().set_volume(95);
    remote.volume_up();
    assert_eq!(remote.device().volume(), 100);
    remote.device().set_volume(250);
    assert_eq!(remote.device().volume(), 100);
}

#[test]
fn channel_steps() {
    let mut remote = BasicRemote::new(Tv::default());
    remote.channel_up();
    remote.channel_up();
    assert_eq!(remote.device().channel(), 3);
    remote.channel_down();
    assert_eq!(remote.device().channel(), 2);
}

#[test]
fn status_panels() {
    let mut tv = Tv::default();
    assert_eq!(
        tv.status(),
        "------------------------------------\n| I'm TV set.\n| I'm disabled\n| Current volume is 30%\n| Current channel is 1\n------------------------------------\n"
    );
    tv.enable();
    tv.set_volume(0);
    tv.set_channel(512);
    assert_eq!(
        tv.status(),
        "------------------------------------\n| I'm TV set.\n| I'm enabled\n| Current volume is 0%\n| Current channel is 512\n------------------------------------\n"
    );
    let radio = Radio::default();
    assert!(radio.status().contains("| I'm radio.\n"));
}
