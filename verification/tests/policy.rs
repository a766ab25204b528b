use racf::binary64::Binary64;
use racf::catalog::{check_freq, check_govs, Catalog};
use racf::config::Config;
use racf::error::MainE;
use racf::profile::{threshold, Decision, Profile, Telemetry, TurboKind};

const GOVERNORS: &str = "conservative ondemand userspace powersave performance schedutil \n";
const FREQUENCIES: &str = "2201000 2200000 1800000 1400000 800000 \n";

fn catalog() -> Catalog {
    Catalog { governors: Ok(GOVERNORS.to_owned()), frequencies: Ok(FREQUENCIES.to_owned()) }
}

fn reading(x: f64) -> Binary64 {
    Binary64::from_bits(x.to_bits())
}

fn profile(turbo: TurboKind, mincpu: f64, mintemp: u32, governor: &str) -> Profile {
    Profile {
        turbo,
        interval: 60,
        mincpu: reading(mincpu),
        mintemp,
        governor: governor.to_owned(),
        frequency: None,
    }
}

fn snapshot(cpu_percent: f64, temperature: u32, load_average: f64) -> Telemetry {
    Telemetry {
        charging: false,
        cpu_percent: reading(cpu_percent),
        load_average: reading(load_average),
        temperature,
    }
}

fn extremes() -> Vec<Telemetry> {
    vec![
        snapshot(0.0, 0, 0.0),
        snapshot(100.0, u32::MAX, 1e9),
        snapshot(f64::NAN, 0, f64::NAN),
        snapshot(f64::INFINITY, 100, f64::INFINITY),
        snapshot(-1.0, 20, -3.5),
        snapshot(50.0, 50, 2.0),
    ]
}

#[test]
fn never_keeps_turbo_off() {
    let p = profile(TurboKind::Never, 0.0, 0, "powersave");
    for t in extremes().iter() {
        for cpus in [0usize, 1, 4, 8, 128, usize::MAX] {
            assert!(!p.run(t, cpus).turbo);
            assert!(!p.set(t, cpus).turbo);
        }
    }
}

#[test]
fn always_keeps_turbo_on() {
    let p = profile(TurboKind::Always, 100.0, u32::MAX, "powersave");
    for t in extremes().iter() {
        for cpus in [0usize, 1, 4, 8, 128, usize::MAX] {
            assert!(p.run(t, cpus).turbo);
            assert!(p.set(t, cpus).turbo);
        }
    }
}

#[test]
fn auto_follows_each_of_the_three_thresholds() {
    let p = profile(TurboKind::Auto, 80.0, 75, "powersave");
    // none reached
    assert!(!p.run(&snapshot(79.9, 74, 2.99), 4).turbo);
    // load average alone
    assert!(p.run(&snapshot(0.0, 0, 3.0), 4).turbo);
    // utilisation alone
    assert!(p.run(&snapshot(80.0, 0, 0.0), 4).turbo);
    // temperature alone
    assert!(p.run(&snapshot(0.0, 75, 0.0), 4).turbo);
    // a reading that is not a number reaches nothing
    assert!(!p.run(&snapshot(f64::NAN, 74, f64::NAN), 4).turbo);
    assert!(p.run(&snapshot(f64::NAN, 75, f64::NAN), 4).turbo);
    // a threshold that is not a number is never reached
    let q = profile(TurboKind::Auto, f64::NAN, 75, "powersave");
    assert!(!q.run(&snapshot(100.0, 74, 2.0), 4).turbo);
}

#[test]
fn auto_agrees_with_the_comparisons_of_the_hardware() {
    let loads = [0.0f64, 0.74, 0.75, 1.0, 2.99, 3.0, 5.99, 6.0, 6.75, 7.0, 95.9, 96.0];
    let percents = [0.0f64, 29.9, 30.0, 30.1, 99.0];
    let temps = [0u32, 69, 70, 71];
    let counts = [1usize, 2, 4, 8, 9, 128];
    let p = profile(TurboKind::Auto, 30.0, 70, "powersave");
    for load in loads {
        for percent in percents {
            for temp in temps {
                for cpus in counts {
                    let expected = load >= ((75 * cpus) / 100) as f64 || percent >= 30.0 || temp >= 70;
                    let t = snapshot(percent, temp, load);
                    assert_eq!(p.run(&t, cpus).turbo, expected);
                }
            }
        }
    }
}

#[test]
fn the_threshold_is_three_quarters_rounded_down() {
    assert_eq!(threshold(0), 0);
    assert_eq!(threshold(1), 0);
    assert_eq!(threshold(2), 1);
    assert_eq!(threshold(3), 2);
    assert_eq!(threshold(4), 3);
    assert_eq!(threshold(8), 6);
    assert_eq!(threshold(9), 6);
    assert_eq!(threshold(128), 96);
    assert_eq!(threshold(usize::MAX) as u128, 75 * (usize::MAX as u128) / 100);
}

#[test]
fn eight_cpus_and_a_load_of_six_switch_turbo_on() {
    assert_eq!(threshold(8), 6);
    let p = profile(TurboKind::Auto, 100.0, u32::MAX, "powersave");
    assert!(p.run(&snapshot(0.0, 0, 6.0), 8).turbo);
    assert!(!p.run(&snapshot(0.0, 0, 5.999), 8).turbo);
    assert!(p.run(&snapshot(0.0, 0, 6.5), 8).turbo);
}

#[test]
fn an_idle_machine_on_battery_keeps_turbo_off() {
    let battery = profile(TurboKind::Auto, 80.0, 75, "powersave");
    let t = snapshot(10.0, 40, 0.5);
    assert_eq!(threshold(4), 3);
    let d = battery.run(&t, 4);
    assert_eq!(d, Decision { governor: "powersave".to_owned(), frequency: None, turbo: false });
}

#[test]
fn a_busy_machine_on_battery_switches_turbo_on() {
    let battery = profile(TurboKind::Auto, 80.0, 75, "powersave");
    let t = snapshot(85.0, 40, 0.5);
    let d = battery.run(&t, 4);
    assert_eq!(d, Decision { governor: "powersave".to_owned(), frequency: None, turbo: true });
}

#[test]
fn a_frequency_under_performance_is_rejected() {
    let mut ac = profile(TurboKind::Auto, 30.0, 70, "performance");
    ac.frequency = Some(2200000);
    assert_eq!(ac.check(&catalog()), Err(MainE::NoUserspace));
    assert_eq!(ac.validate(&catalog()), Err(MainE::NoUserspace));
    let config = Config { battery: profile(TurboKind::Auto, 80.0, 75, "powersave"), ac };
    assert_eq!(config.validate(&catalog()), Err(MainE::NoUserspace));
}

#[test]
fn the_decision_carries_governor_and_frequency_as_configured() {
    let mut p = profile(TurboKind::Never, 30.0, 70, "UserSpace");
    p.frequency = Some(1800000);
    let d = p.run(&snapshot(0.0, 0, 0.0), 2);
    assert_eq!(d.governor, "UserSpace");
    assert_eq!(d.frequency, Some(1800000));
}

#[test]
fn an_unknown_governor_is_rejected() {
    for name in ["erformance", "performanc", "", "power save", "ondemand2", "perf\u{e9}"] {
        let p = profile(TurboKind::Auto, 30.0, 70, name);
        assert_eq!(
            p.check(&catalog()),
            Err(MainE::WrongGov(name.to_ascii_lowercase())),
            "{}",
            name
        );
    }
    // rejected before the frequency is looked at
    let mut p = profile(TurboKind::Auto, 30.0, 70, "bogus");
    p.frequency = Some(2200000);
    assert_eq!(p.check(&catalog()), Err(MainE::WrongGov("bogus".to_owned())));
}

#[test]
fn a_known_governor_is_accepted_in_any_case() {
    for name in ["conservative", "ondemand", "userspace", "powersave", "performance", "schedutil"] {
        assert_eq!(profile(TurboKind::Auto, 30.0, 70, name).check(&catalog()), Ok(()));
        let upper = name.to_ascii_uppercase();
        assert_eq!(profile(TurboKind::Auto, 30.0, 70, &upper).check(&catalog()), Ok(()));
    }
    assert_eq!(
        profile(TurboKind::Auto, 30.0, 70, "PowerSave").validate(&catalog()),
        Ok(())
    );
}

#[test]
fn the_governor_is_lowered_but_the_catalog_is_not() {
    let p = profile(TurboKind::Auto, 30.0, 70, "performance");
    let capitals = Catalog {
        governors: Ok("Performance powersave".to_owned()),
        frequencies: Ok(FREQUENCIES.to_owned()),
    };
    assert_eq!(p.check(&capitals), Err(MainE::WrongGov("performance".to_owned())));
}

#[test]
fn a_frequency_needs_userspace_whether_offered_or_not() {
    for khz in [2200000u32, 1, 0, u32::MAX] {
        let mut p = profile(TurboKind::Auto, 30.0, 70, "powersave");
        p.frequency = Some(khz);
        assert_eq!(p.check(&catalog()), Err(MainE::NoUserspace));
    }
}

#[test]
fn a_frequency_under_userspace_must_be_offered() {
    let mut p = profile(TurboKind::Auto, 30.0, 70, "USERSPACE");
    p.frequency = Some(2200000);
    assert_eq!(p.check(&catalog()), Ok(()));
    p.frequency = Some(800000);
    assert_eq!(p.check(&catalog()), Ok(()));
    p.frequency = Some(2200001);
    assert_eq!(p.check(&catalog()), Err(MainE::WrongFreq(2200001)));
    p.frequency = Some(220000);
    assert_eq!(p.check(&catalog()), Err(MainE::WrongFreq(220000)));
    p.frequency = Some(0);
    assert_eq!(p.check(&catalog()), Err(MainE::WrongFreq(0)));
}

#[test]
fn governors_are_matched_token_by_token() {
    assert_eq!(check_govs("performance", GOVERNORS), Ok(()));
    assert_eq!(check_govs("schedutil", "schedutil"), Ok(()));
    assert_eq!(check_govs("schedutil", "\tschedutil\r\n"), Ok(()));
    assert_eq!(check_govs("schedutil", "ondemand\x0cschedutil"), Ok(()));
    assert_eq!(check_govs("Performance", GOVERNORS), Err(MainE::WrongGov("Performance".to_owned())));
    assert_eq!(check_govs("perform", GOVERNORS), Err(MainE::WrongGov("perform".to_owned())));
    assert_eq!(check_govs("", GOVERNORS), Err(MainE::WrongGov(String::new())));
    assert_eq!(check_govs("", ""), Err(MainE::WrongGov(String::new())));
    assert_eq!(
        check_govs("ondemand userspace", GOVERNORS),
        Err(MainE::WrongGov("ondemand userspace".to_owned()))
    );
    assert_eq!(check_govs("powersave", "   \n"), Err(MainE::WrongGov("powersave".to_owned())));
    // a no-break space does not separate tokens
    assert_eq!(
        check_govs("powersave", "ondemand\u{a0}powersave"),
        Err(MainE::WrongGov("powersave".to_owned()))
    );
}

#[test]
fn frequencies_are_matched_by_their_numerals() {
    assert_eq!(check_freq(2200000, FREQUENCIES), Ok(()));
    assert_eq!(check_freq(800000, FREQUENCIES), Ok(()));
    assert_eq!(check_freq(80000, FREQUENCIES), Err(MainE::WrongFreq(80000)));
    assert_eq!(check_freq(0, "0"), Ok(()));
    assert_eq!(check_freq(0, "00"), Err(MainE::WrongFreq(0)));
    assert_eq!(check_freq(7, "07 +7 7.0"), Err(MainE::WrongFreq(7)));
    assert_eq!(check_freq(u32::MAX, "1 4294967295 2"), Ok(()));
    assert_eq!(check_freq(1000, ""), Err(MainE::WrongFreq(1000)));
}

#[test]
fn an_unreadable_list_of_governors_fails_every_profile() {
    let dark = Catalog {
        governors: Err("No such file or directory (os error 2)".to_owned()),
        frequencies: Ok(FREQUENCIES.to_owned()),
    };
    let failure = MainE::Write(
        "No such file or directory (os error 2)".to_owned(),
        "/sys/devices/system/cpu/cpu0/cpufreq/scaling_available_governors".to_owned(),
    );
    assert_eq!(dark.check_govs("powersave"), Err(MainE::Write(
        "No such file or directory (os error 2)".to_owned(),
        "/sys/devices/system/cpu/cpu0/cpufreq/scaling_available_governors".to_owned(),
    )));
    assert_eq!(profile(TurboKind::Auto, 30.0, 70, "powersave").check(&dark), Err(failure));
}

#[test]
fn the_list_of_frequencies_is_read_only_when_needed() {
    let dim = Catalog {
        governors: Ok(GOVERNORS.to_owned()),
        frequencies: Err("No such file or directory (os error 2)".to_owned()),
    };
    let failure = || {
        MainE::Write(
            "No such file or directory (os error 2)".to_owned(),
            "/sys/devices/system/cpu/cpu0/cpufreq/scaling_available_frequencies".to_owned(),
        )
    };
    let mut p = profile(TurboKind::Auto, 30.0, 70, "powersave");
    assert_eq!(p.check(&dim), Ok(()));
    p.frequency = Some(2200000);
    assert_eq!(p.check(&dim), Err(MainE::NoUserspace));
    p.governor = "userspace".to_owned();
    assert_eq!(p.check(&dim), Err(failure()));
    assert_eq!(dim.check_freq(2200000), Err(failure()));
    assert_eq!(dim.check_govs("userspace"), Ok(()));
    assert_eq!(catalog().check_freq(2200000), Ok(()));
    assert_eq!(catalog().check_freq(1), Err(MainE::WrongFreq(1)));
    assert_eq!(catalog().check_govs("nope"), Err(MainE::WrongGov("nope".to_owned())));
}
