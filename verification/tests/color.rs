use ws2812::color::{Channel, ChannelOrder, ColorChannels, RGB, RGBW};

#[test]
fn test_channels() {
    let rgb = RGB::new(255, 0, 0);
    let channels = rgb.channels(&ChannelOrder::grb());
    assert_eq!(channels, [0, 255, 0]);
}

#[test]
fn test_channels_bgr() {
    let rgb = RGB::new(255, 0, 0);
    let channels = rgb.channels(&ChannelOrder::bgr());
    assert_eq!(channels, [0, 0, 255]);
}

#[test]
fn test_white_slot_is_zero_on_three_channel_source() {
    let rgb = RGB::new(10, 20, 30);
    let channels = rgb.channels(&ChannelOrder::rgbw());
    assert_eq!(channels, [10, 20, 30, 0]);
    let channels = rgb.channels(&ChannelOrder::grbw());
    assert_eq!(channels, [20, 10, 30, 0]);
    let channels = rgb.channels(&ChannelOrder::bgrw());
    assert_eq!(channels, [30, 20, 10, 0]);
}

#[test]
fn test_four_channel_orders() {
    let px = RGBW::new(1, 2, 3, 4);
    assert_eq!(px.channels(&ChannelOrder::rgbw()), [1, 2, 3, 4]);
    assert_eq!(px.channels(&ChannelOrder::grbw()), [2, 1, 3, 4]);
    assert_eq!(px.channels(&ChannelOrder::bgrw()), [3, 2, 1, 4]);
}

#[test]
fn test_three_channel_orders() {
    let px = RGB::new(1, 2, 3);
    assert_eq!(px.channels(&ChannelOrder::rgb()), [1, 2, 3]);
    assert_eq!(px.channels(&ChannelOrder::grb()), [2, 1, 3]);
    assert_eq!(px.channels(&ChannelOrder::bgr()), [3, 2, 1]);
}

#[test]
fn test_channel_order_length_is_validated() {
    assert!(ChannelOrder::new(vec![Channel::R, Channel::G]).is_none());
    assert!(ChannelOrder::new(vec![Channel::R, Channel::G, Channel::B]).is_some());
    assert!(ChannelOrder::new(vec![Channel::R, Channel::G, Channel::B, Channel::W]).is_some());
    assert!(ChannelOrder::new(vec![
        Channel::R,
        Channel::G,
        Channel::B,
        Channel::W,
        Channel::R
    ])
    .is_none());
}

#[test]
fn test_custom_order_keeps_slots() {
    let order = ChannelOrder::new(vec![Channel::W, Channel::W, Channel::R]).unwrap();
    assert_eq!(order.len(), 3);
    let px = RGBW::new(9, 8, 7, 6);
    assert_eq!(px.channels(&order), [6, 6, 9]);
}
