//! JSON bodies of the lamp service's `call-lamp-method` commands.

use vstd::prelude::*;
use crate::text::{decimal, decimal_string};

verus! {

/// A `call-lamp-method` command with argument list `args`, target list
/// `targets` and method name `method`.
pub open spec fn command_json(args: Seq<char>, targets: Seq<char>, method: Seq<char>) -> Seq<char> {
    "{\"type\":\"call-lamp-method\",\"data\":{\"args\":["@ + args + "],\"targets\":["@ + targets
        + "],\"method\":\""@ + method + "\"}}"@
}

/// Arguments of a `set_scene` colour call.
pub open spec fn color_args(rgb: u32, brightness: u8) -> Seq<char> {
    "\"color\","@ + decimal(rgb as nat) + ","@ + decimal(brightness as nat)
}

/// Arguments of a `set_scene` colour-temperature call.
pub open spec fn temperature_args(kelvin: u32, brightness: u8) -> Seq<char> {
    "\"ct\","@ + decimal(kelvin as nat) + ","@ + decimal(brightness as nat)
}

/// Arguments of a `start_cf` call: one run of a flash to colour `rgb` at full
/// brightness, then to off, a hundred milliseconds each.
pub open spec fn flash_args(rgb: u32) -> Seq<char> {
    "1,0,\"100, 1, "@ + decimal(rgb as nat) + ", 100, 100, 1, 0, 100\""@
}

fn command(args: String, targets: String, method: &str) -> (r: String)
    ensures
        r@ == command_json(args@, targets@, method@),
{
    let mut s = String::from_str("{\"type\":\"call-lamp-method\",\"data\":{\"args\":[");
    s.append(args.as_str());
    s.append("],\"targets\":[");
    s.append(targets.as_str());
    s.append("],\"method\":\"");
    s.append(method);
    s.append("\"}}");
    s
}

/// Sets the scene of `targets` to colour `rgb` (0xRRGGBB) at `brightness`.
pub fn set_scene_color(targets: String, rgb: u32, brightness: u8) -> (r: String)
    ensures
        r@ == command_json(color_args(rgb, brightness), targets@, "set_scene"@),
{
    let mut args = String::from_str("\"color\",");
    args.append(decimal_string(rgb as u64).as_str());
    args.append(",");
    args.append(decimal_string(brightness as u64).as_str());
    command(args, targets, "set_scene")
}

/// Sets the scene of `targets` to colour temperature `color_temperature`
/// (kelvin) at `brightness`.
pub fn set_scene_color_temperature(targets: String, color_temperature: u32, brightness: u8) -> (r: String)
    ensures
        r@ == command_json(temperature_args(color_temperature, brightness), targets@, "set_scene"@),
{
    let mut args = String::from_str("\"ct\",");
    args.append(decimal_string(color_temperature as u64).as_str());
    args.append(",");
    args.append(decimal_string(brightness as u64).as_str());
    command(args, targets, "set_scene")
}

/// Switches `targets` on or off.
pub fn toggle_lamp(targets: String) -> (r: String)
    ensures
        r@ == command_json(Seq::empty(), targets@, "toggle"@),
{
    let args = String::new();
    command(args, targets, "toggle")
}

fn flash(targets: String, rgb: u32) -> (r: String)
    ensures
        r@ == command_json(flash_args(rgb), targets@, "start_cf"@),
{
    let mut args = String::from_str("1,0,\"100, 1, ");
    args.append(decimal_string(rgb as u64).as_str());
    args.append(", 100, 100, 1, 0, 100\"");
    command(args, targets, "start_cf")
}

/// Flashes `targets` once in `green` (0xRRGGBB), the sign of a lamp selected.
pub fn blink_lamp_green(targets: String, green: u32) -> (r: String)
    ensures
        r@ == command_json(flash_args(green), targets@, "start_cf"@),
{
    flash(targets, green)
}

/// Flashes `targets` once in `red` (0xRRGGBB), the sign of a lamp deselected.
pub fn blink_lamp_red(targets: String, red: u32) -> (r: String)
    ensures
        r@ == command_json(flash_args(red), targets@, "start_cf"@),
{
    flash(targets, red)
}

} // verus!
