//! Remotes (the abstraction) that drive devices (the implementation).
use vstd::prelude::*;
use vstd::string::StringExecFns;

use crate::text::{decimal, decimal_string};

verus! {

/// The status panel of a device.
pub open spec fn status_text(name: Seq<char>, enabled: bool, volume: u8, channel: u16) -> Seq<
    char,
> {
    "------------------------------------\n| I'm "@ + name + ".\n| I'm "@ + (if enabled {
        "enabled"@
    } else {
        "disabled"@
    }) + "\n| Current volume is "@ + decimal(volume as nat) + "%\n| Current channel is "@
        + decimal(channel as nat) + "\n------------------------------------\n"@
}

/// Writes the status panel of a device called `name`.
fn status_panel(name: &str, enabled: bool, volume: u8, channel: u16) -> (r: String)
    ensures
        r@ == status_text(name@, enabled, volume, channel),
{
    let mut s = "------------------------------------\n| I'm ".to_string();
    s.append(name);
    s.append(".\n| I'm ");
    if enabled {
        s.append("enabled");
    } else {
        s.append("disabled");
    }
    s.append("\n| Current volume is ");
    let v = decimal_string(volume as u64);
    s.append(v.as_str());
    s.append("%\n| Current channel is ");
    let c = decimal_string(channel as u64);
    s.append(c.as_str());
    s.append("\n------------------------------------\n");
    s
}

/// What a remote can do to a device.
pub trait Device {
    /// What the device calls itself on its status panel.
    spec fn device_name(&self) -> Seq<char>;

    spec fn spec_enabled(&self) -> bool;

    spec fn spec_volume(&self) -> u8;

    spec fn spec_channel(&self) -> u16;

    fn is_enabled(&self) -> (r: bool)
        ensures
            r == self.spec_enabled(),
    ;

    fn enable(&mut self)
        ensures
            final(self).spec_enabled(),
            final(self).spec_volume() == old(self).spec_volume(),
            final(self).spec_channel() == old(self).spec_channel(),
    ;

    fn disable(&mut self)
        ensures
            !final(self).spec_enabled(),
            final(self).spec_volume() == old(self).spec_volume(),
            final(self).spec_channel() == old(self).spec_channel(),
    ;

    fn volume(&self) -> (r: u8)
        ensures
            r == self.spec_volume(),
    ;

    /// Sets the volume, in percent; anything above 100 counts as 100.
    fn set_volume(&mut self, percent: u8)
        ensures
            final(self).spec_volume() == if percent <= 100 {
                percent
            } else {
                100
            },
            final(self).spec_enabled() == old(self).spec_enabled(),
            final(self).spec_channel() == old(self).spec_channel(),
    ;

    fn channel(&self) -> (r: u16)
        ensures
            r == self.spec_channel(),
    ;

    fn set_channel(&mut self, channel: u16)
        ensures
            final(self).spec_channel() == channel,
            final(self).spec_enabled() == old(self).spec_enabled(),
            final(self).spec_volume() == old(self).spec_volume(),
    ;

    /// The status panel: name, power, volume and channel.
    fn status(&self) -> (r: String)
        ensures
            r@ == status_text(
                self.device_name(),
                self.spec_enabled(),
                self.spec_volume(),
                self.spec_channel(),
            ),
    ;
}

#[derive(Clone, Copy)]
pub struct Radio {
    on: bool,
    volume: u8,
    channel: u16,
}

impl Default for Radio {
    /// Switched off, at 30% volume, on channel 1.
    fn default() -> (r: Self)
        ensures
            !r.spec_enabled(),
            r.spec_volume() == 30,
            r.spec_channel() == 1,
    {
        Radio { on: false, volume: 30, channel: 1 }
    }
}

impl Device for Radio {
    open spec fn device_name(&self) -> Seq<char> {
        "radio"@
    }
    closed spec fn spec_enabled(&self) -> bool {
        self.on
    }

    closed spec fn spec_volume(&self) -> u8 {
        self.volume
    }

    closed spec fn spec_channel(&self) -> u16 {
        self.channel
    }

    fn is_enabled(&self) -> (r: bool) {
        self.on
    }

    fn enable(&mut self) {
        self.on = true;
    }

    fn disable(&mut self) {
        self.on = false;
    }

    fn volume(&self) -> (r: u8) {
        self.volume
    }

    fn set_volume(&mut self, percent: u8) {
        self.volume = if percent <= 100 {
            percent
        } else {
            100
        };
    }

    fn channel(&self) -> (r: u16) {
        self.channel
    }

    fn set_channel(&mut self, channel: u16) {
        self.channel = channel;
    }

    fn status(&self) -> (r: String) {
        status_panel("radio", self.on, self.volume, self.channel)
    }
}

#[derive(Clone, Copy)]
pub struct Tv {
    on: bool,
    volume: u8,
    channel: u16,
}

impl Default for Tv {
    /// Switched off, at 30% volume, on channel 1.
    fn default() -> (r: Self)
        ensures
            !r.spec_enabled(),
            r.spec_volume() == 30,
            r.spec_channel() == 1,
    {
        Tv { on: false, volume: 30, channel: 1 }
    }
}

impl Device for Tv {
    open spec fn device_name(&self) -> Seq<char> {
        "TV set"@
    }
    closed spec fn spec_enabled(&self) -> bool {
        self.on
    }

    closed spec fn spec_volume(&self) -> u8 {
        self.volume
    }

    closed spec fn spec_channel(&self) -> u16 {
        self.channel
    }

    fn is_enabled(&self) -> (r: bool) {
        self.on
    }

    fn enable(&mut self) {
        self.on = true;
    }

    fn disable(&mut self) {
        self.on = false;
    }

    fn volume(&self) -> (r: u8) {
        self.volume
    }

    fn set_volume(&mut self, percent: u8) {
        self.volume = if percent <= 100 {
            percent
        } else {
            100
        };
    }

    fn channel(&self) -> (r: u16) {
        self.channel
    }

    fn set_channel(&mut self, channel: u16) {
        self.channel = channel;
    }

    fn status(&self) -> (r: String) {
        status_panel("TV set", self.on, self.volume, self.channel)
    }
}

/// Gives a remote mutable access to the device it drives.
pub trait HashMutableDevice<D: Device> {
    spec fn spec_device(&self) -> D;

    fn device(&mut self) -> (r: &mut D)
        ensures
            *r == old(self).spec_device(),
            final(self).spec_device() == *final(r),
    ;
}

/// The abstraction: every remote can do these, on any device.
pub trait Remote<D: Device>: HashMutableDevice<D> {
    /// Switches the device on when it is off, and off when it is on.
    fn power(&mut self)
        ensures
            final(self).spec_device().spec_enabled() == !old(self).spec_device().spec_enabled(),
            final(self).spec_device().spec_volume() == old(self).spec_device().spec_volume(),
            final(self).spec_device().spec_channel() == old(self).spec_device().spec_channel(),
    {
        let enabled = self.device().is_enabled();
        if enabled {
            self.device().disable();
        } else {
            self.device().enable();
        }
    }

    fn volume_down(&mut self)
        requires
            old(self).spec_device().spec_volume() >= 10,
        ensures
            final(self).spec_device().spec_volume() == if old(self).spec_device().spec_volume()
                - 10 <= 100 {
                (old(self).spec_device().spec_volume() - 10) as u8
            } else {
                100u8
            },
            final(self).spec_device().spec_enabled() == old(self).spec_device().spec_enabled(),
            final(self).spec_device().spec_channel() == old(self).spec_device().spec_channel(),
    {
        let volume = self.device().volume();
        self.device().set_volume(volume - 10);
    }

    fn volume_up(&mut self)
        requires
            old(self).spec_device().spec_volume() + 10 <= u8::MAX,
        ensures
            final(self).spec_device().spec_volume() == if old(self).spec_device().spec_volume()
                + 10 <= 100 {
                (old(self).spec_device().spec_volume() + 10) as u8
            } else {
                100u8
            },
            final(self).spec_device().spec_enabled() == old(self).spec_device().spec_enabled(),
            final(self).spec_device().spec_channel() == old(self).spec_device().spec_channel(),
    {
        let volume = self.device().volume();
        self.device().set_volume(volume + 10);
    }

    fn channel_down(&mut self)
        requires
            old(self).spec_device().spec_channel() >= 1,
        ensures
            final(self).spec_device().spec_channel() == old(self).spec_device().spec_channel() - 1,
            final(self).spec_device().spec_enabled() == old(self).spec_device().spec_enabled(),
            final(self).spec_device().spec_volume() == old(self).spec_device().spec_volume(),
    {
        let channel = self.device().channel();
        self.device().set_channel(channel - 1);
    }

    fn channel_up(&mut self)
        requires
            old(self).spec_device().spec_channel() < u16::MAX,
        ensures
            final(self).spec_device().spec_channel() == old(self).spec_device().spec_channel() + 1,
            final(self).spec_device().spec_enabled() == old(self).spec_device().spec_enabled(),
            final(self).spec_device().spec_volume() == old(self).spec_device().spec_volume(),
    {
        let channel = self.device().channel();
        self.device().set_channel(channel + 1);
    }
}

pub struct BasicRemote<D: Device> {
    device: D,
}

impl<D: Device> BasicRemote<D> {
    pub fn new(device: D) -> (r: Self)
        ensures
            r.spec_device() == device,
    {
        BasicRemote { device }
    }
}

impl<D: Device> HashMutableDevice<D> for BasicRemote<D> {
    closed spec fn spec_device(&self) -> D {
        self.device
    }

    fn device(&mut self) -> (r: &mut D) {
        &mut self.device
    }
}

impl<D: Device> Remote<D> for BasicRemote<D> {

}

pub struct AdvancedRemove<D: Device> {
    device: D,
}

impl<D: Device> AdvancedRemove<D> {
    pub fn new(device: D) -> (r: Self)
        ensures
            r.spec_device() == device,
    {
        AdvancedRemove { device }
    }

    /// Turns the sound all the way down.
    pub fn mute(&mut self)
        ensures
            final(self).spec_device().spec_volume() == 0,
            final(self).spec_device().spec_enabled() == old(self).spec_device().spec_enabled(),
            final(self).spec_device().spec_channel() == old(self).spec_device().spec_channel(),
    {
        self.device.set_volume(0);
    }
}

impl<D: Device> HashMutableDevice<D> for AdvancedRemove<D> {
    closed spec fn spec_device(&self) -> D {
        self.device
    }

    fn device(&mut self) -> (r: &mut D) {
        &mut self.device
    }
}

impl<D: Device> Remote<D> for AdvancedRemove<D> {

}

} // verus!
