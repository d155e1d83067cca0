//! The commands of the two programs, from their arguments.
use vstd::prelude::*;
use crate::text::str_eq;

verus! {

/// What the profile program is asked to apply.
#[derive(Clone, Copy, Debug, PartialEq, Eq, Structural)]
pub enum ProfileCommand {
    Initialize,
    Performance,
    Balanced,
    Eco,
}

/// The profile that the first argument names: `0` the boot sequence, `1`
/// performance, `2` balanced, `3` eco.
pub open spec fn profile_of(arg: Seq<char>) -> Option<ProfileCommand> {
    if arg == "0"@ {
        Some(ProfileCommand::Initialize)
    } else if arg == "1"@ {
        Some(ProfileCommand::Performance)
    } else if arg == "2"@ {
        Some(ProfileCommand::Balanced)
    } else if arg == "3"@ {
        Some(ProfileCommand::Eco)
    } else {
        None
    }
}

/// The profile the program's arguments ask for (the first one being the
/// program itself); none when there is no argument or it names none.
pub fn profile_command(args: &[String]) -> (r: Option<ProfileCommand>)
    ensures
        r == (if args@.len() > 1 { profile_of(args@[1]@) } else { None }),
{
    if args.len() <= 1 {
        return None;
    }
    let a = args[1].as_str();
    if str_eq(a, "0") {
        Some(ProfileCommand::Initialize)
    } else if str_eq(a, "1") {
        Some(ProfileCommand::Performance)
    } else if str_eq(a, "2") {
        Some(ProfileCommand::Balanced)
    } else if str_eq(a, "3") {
        Some(ProfileCommand::Eco)
    } else {
        None
    }
}

/// What the utility program is asked to do.
#[derive(Clone, Copy, Debug, PartialEq, Eq, Structural)]
pub enum Utility {
    SetsGov,
    SetsGpuMali,
    SetsIo,
    SetThermalCore,
    FsTrim,
    EnableDnd,
    DisableDnd,
    SetRefreshRates,
    SetRender,
    EnableBypass,
    DisableBypass,
    CheckBypass,
    SaveLog,
    Unknown,
}

/// The request a command word names.
pub open spec fn utility_of(name: Seq<char>) -> Utility {
    if name == "setsgov"@ {
        Utility::SetsGov
    } else if name == "setsGPUMali"@ {
        Utility::SetsGpuMali
    } else if name == "setsIO"@ {
        Utility::SetsIo
    } else if name == "setthermalcore"@ {
        Utility::SetThermalCore
    } else if name == "FSTrim"@ {
        Utility::FsTrim
    } else if name == "enableDND"@ {
        Utility::EnableDnd
    } else if name == "disableDND"@ {
        Utility::DisableDnd
    } else if name == "setrefreshrates"@ {
        Utility::SetRefreshRates
    } else if name == "setrender"@ {
        Utility::SetRender
    } else if name == "enableBypass"@ {
        Utility::EnableBypass
    } else if name == "disableBypass"@ {
        Utility::DisableBypass
    } else if name == "checkBypass"@ {
        Utility::CheckBypass
    } else if name == "saveLog"@ {
        Utility::SaveLog
    } else {
        Utility::Unknown
    }
}

/// The requests that take a value as their second argument.
pub open spec fn takes_value(u: Utility) -> bool {
    u == Utility::SetsGov || u == Utility::SetsGpuMali || u == Utility::SetsIo || u == Utility::SetThermalCore || u
        == Utility::SetRefreshRates || u == Utility::SetRender
}

fn utility_exec(name: &str) -> (u: Utility)
    ensures
        u == utility_of(name@),
{
    if str_eq(name, "setsgov") {
        Utility::SetsGov
    } else if str_eq(name, "setsGPUMali") {
        Utility::SetsGpuMali
    } else if str_eq(name, "setsIO") {
        Utility::SetsIo
    } else if str_eq(name, "setthermalcore") {
        Utility::SetThermalCore
    } else if str_eq(name, "FSTrim") {
        Utility::FsTrim
    } else if str_eq(name, "enableDND") {
        Utility::EnableDnd
    } else if str_eq(name, "disableDND") {
        Utility::DisableDnd
    } else if str_eq(name, "setrefreshrates") {
        Utility::SetRefreshRates
    } else if str_eq(name, "setrender") {
        Utility::SetRender
    } else if str_eq(name, "enableBypass") {
        Utility::EnableBypass
    } else if str_eq(name, "disableBypass") {
        Utility::DisableBypass
    } else if str_eq(name, "checkBypass") {
        Utility::CheckBypass
    } else if str_eq(name, "saveLog") {
        Utility::SaveLog
    } else {
        Utility::Unknown
    }
}

/// The request the utility's arguments make (the first one being the
/// program itself, the second the command, the third its value): none when
/// there is no command, or when the command takes a value and none is
/// given.
pub fn utility_command(args: &[String]) -> (r: Option<Utility>)
    ensures
        r == (if args@.len() <= 1 {
            None
        } else if takes_value(utility_of(args@[1]@)) && args@.len() <= 2 {
            None
        } else {
            Some(utility_of(args@[1]@))
        }),
{
    if args.len() <= 1 {
        return None;
    }
    let u = utility_exec(args[1].as_str());
    let needs = match u {
        Utility::SetsGov | Utility::SetsGpuMali | Utility::SetsIo | Utility::SetThermalCore
        | Utility::SetRefreshRates | Utility::SetRender => true,
        _ => false,
    };
    if needs && args.len() <= 2 {
        None
    } else {
        Some(u)
    }
}

/// The bypass charging commands the profiles send to the utility are the
/// utility's own: `enableBypass` turns bypass charging on, `disableBypass`
/// turns it off, and neither needs a value.
pub proof fn law_bypass_commands()
    ensures
        utility_of("enableBypass"@) == Utility::EnableBypass,
        utility_of("disableBypass"@) == Utility::DisableBypass,
        !takes_value(utility_of("enableBypass"@)),
        !takes_value(utility_of("disableBypass"@)),
{
    reveal_strlit("enableBypass");
    reveal_strlit("disableBypass");
    reveal_strlit("setsgov");
    reveal_strlit("setsGPUMali");
    reveal_strlit("setsIO");
    reveal_strlit("setthermalcore");
    reveal_strlit("FSTrim");
    reveal_strlit("enableDND");
    reveal_strlit("disableDND");
    reveal_strlit("setrefreshrates");
    reveal_strlit("setrender");
    let en = "enableBypass"@;
    let dis = "disableBypass"@;
    assert(en != "setsgov"@ && en != "setsGPUMali"@ && en != "setsIO"@ && en != "setthermalcore"@ && en
        != "FSTrim"@ && en != "setrefreshrates"@ && en != "setrender"@) by {
        assert(en.len() != "setsgov"@.len() && en.len() != "setsGPUMali"@.len());
        assert(en.len() != "setsIO"@.len() && en.len() != "setthermalcore"@.len());
        assert(en.len() != "FSTrim"@.len() && en.len() != "setrefreshrates"@.len());
        assert(en.len() != "setrender"@.len());
    }
    assert(en != "enableDND"@ && en != "disableDND"@) by {
        assert(en.len() != "enableDND"@.len() && en.len() != "disableDND"@.len());
    }
    assert(dis != "setsgov"@ && dis != "setsGPUMali"@ && dis != "setsIO"@ && dis != "setthermalcore"@ && dis
        != "FSTrim"@ && dis != "setrefreshrates"@ && dis != "setrender"@) by {
        assert(dis.len() != "setsgov"@.len() && dis.len() != "setsGPUMali"@.len());
        assert(dis.len() != "setsIO"@.len() && dis.len() != "setthermalcore"@.len());
        assert(dis.len() != "FSTrim"@.len() && dis.len() != "setrefreshrates"@.len());
        assert(dis.len() != "setrender"@.len());
    }
    assert(dis != "enableDND"@ && dis != "disableDND"@ && dis != en) by {
        assert(dis.len() != "enableDND"@.len() && dis.len() != "disableDND"@.len() && dis.len() != en.len());
    }
}


} // verus!
