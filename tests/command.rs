use rudo::command::Command;

#[test]
fn command_addr() {
    assert_eq!(Command::PanelSetting.address(), 0x00);
    assert_eq!(Command::DisplayRefresh.address(), 0x12);
}

#[test]
fn command_addr_power_and_partial() {
    assert_eq!(Command::PowerOn.address(), 0x04);
    assert_eq!(Command::DeepSleep.address(), 0x07);
    assert_eq!(Command::DataStop.address(), 0x11);
    assert_eq!(Command::PartialOut.address(), 0x92);
}
