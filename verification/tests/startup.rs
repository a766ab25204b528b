use racf::args::{Action, Cli};
use racf::config::{choose_config, config_path};
use racf::error::MainE;
use racf::instance::{check_instances, Process};
use racf::report::{percpu_stats, power_tint, turbo_tint, Tint, TurboState};
use racf::telemetry::{avgload, loadavg_failure, loadavg_path};

fn cli(turbo: Option<bool>, run_once: bool, governor: Option<&str>, list: bool) -> Cli {
    Cli { turbo, run_once, governor: governor.map(|g| g.to_owned()), list }
}

fn named(pid: u32, name: &str) -> Process {
    Process::Named(pid, name.to_owned())
}

fn strings(items: &[&str]) -> Vec<String> {
    items.iter().map(|s| (*s).to_owned()).collect()
}

#[test]
fn without_flags_the_daemon_runs() {
    assert_eq!(cli(None, false, None, false).action(), Action::Daemon);
}

#[test]
fn each_flag_asks_for_its_action() {
    assert_eq!(cli(None, false, None, true).action(), Action::List);
    assert_eq!(cli(Some(true), false, None, false).action(), Action::Turbo(true));
    assert_eq!(cli(Some(false), false, None, false).action(), Action::Turbo(false));
    assert_eq!(cli(None, true, None, false).action(), Action::RunOnce);
    assert_eq!(
        cli(None, false, Some("powersave"), false).action(),
        Action::Governor("powersave".to_owned())
    );
}

#[test]
fn flags_given_together_are_ranked() {
    assert_eq!(cli(Some(true), true, Some("powersave"), true).action(), Action::List);
    assert_eq!(cli(Some(false), true, Some("powersave"), false).action(), Action::Turbo(false));
    assert_eq!(cli(None, true, Some("powersave"), false).action(), Action::RunOnce);
    assert_eq!(cli(None, true, None, true).action(), Action::List);
}

#[test]
fn the_first_existing_configuration_wins() {
    assert_eq!(config_path(0), "/etc/racf.toml");
    assert_eq!(config_path(1), "/etc/racf/racf.toml");
    assert_eq!(config_path(2), "/etc/racf/config.toml");
    assert_eq!(choose_config([true, true, true]), Ok("/etc/racf.toml"));
    assert_eq!(choose_config([true, false, false]), Ok("/etc/racf.toml"));
    assert_eq!(choose_config([false, true, true]), Ok("/etc/racf/racf.toml"));
    assert_eq!(choose_config([false, true, false]), Ok("/etc/racf/racf.toml"));
    assert_eq!(choose_config([false, false, true]), Ok("/etc/racf/config.toml"));
    assert_eq!(choose_config([false, false, false]), Err(MainE::MissingConfig));
}

#[test]
fn a_second_instance_is_turned_away() {
    let list = vec![named(1, "systemd"), named(812, "racf"), named(4242, "racf"), named(9, "bash")];
    // the second instance, 4242, finds the first
    assert_eq!(check_instances(&list, 4242), Err(MainE::Running(812)));
    // the first instance, scanning the same list, finds the second
    assert_eq!(check_instances(&list, 812), Err(MainE::Running(4242)));
}

#[test]
fn a_lone_instance_may_start() {
    let list = vec![named(1, "systemd"), named(812, "racf"), named(9, "bash"), named(10, "racfd")];
    assert_eq!(check_instances(&list, 812), Ok(()));
    assert_eq!(check_instances(&Vec::new(), 812), Ok(()));
    assert_eq!(check_instances(&vec![named(3, "RACF"), named(4, " racf")], 1), Ok(()));
}

#[test]
fn an_unreadable_entry_stops_the_scan() {
    let list = vec![
        named(1, "systemd"),
        Process::Unreadable("no such process".to_owned()),
        named(812, "racf"),
    ];
    assert_eq!(check_instances(&list, 4242), Err(MainE::ProcErr("no such process".to_owned())));
    let list = vec![
        named(812, "racf"),
        Process::Unreadable("no such process".to_owned()),
    ];
    assert_eq!(check_instances(&list, 4242), Err(MainE::Running(812)));
    assert_eq!(check_instances(&list, 812), Err(MainE::ProcErr("no such process".to_owned())));
}

#[test]
fn the_load_average_is_the_first_field() {
    assert_eq!(avgload("1.17 0.96 0.94 1/1069 8782\n"), Ok("1.17".to_owned()));
    assert_eq!(avgload("0.00"), Ok("0.00".to_owned()));
    assert_eq!(avgload("\t 12.5\t3\n"), Ok("12.5".to_owned()));
    assert_eq!(avgload("nonsense 1"), Ok("nonsense".to_owned()));
    assert_eq!(avgload(""), Err(MainE::Proc("could not find".to_owned())));
    assert_eq!(avgload(" \n\t"), Err(MainE::Proc("could not find".to_owned())));
}

#[test]
fn the_load_average_has_its_file() {
    assert_eq!(loadavg_path(), "/proc/loadavg");
    assert_eq!(
        loadavg_failure("No such file or directory (os error 2)".to_owned()),
        MainE::Write("No such file or directory (os error 2)".to_owned(), "/proc/loadavg".to_owned())
    );
}

#[test]
fn the_listing_is_tinted_by_state() {
    assert_eq!(turbo_tint(TurboState::On), Tint::Green);
    assert_eq!(turbo_tint(TurboState::Off), Tint::Red);
    assert_eq!(turbo_tint(TurboState::NotSupported), Tint::Yellow);
    assert_eq!(power_tint(true), Tint::Green);
    assert_eq!(power_tint(false), Tint::Red);
}

#[test]
fn the_table_has_a_line_for_each_cpu() {
    let governors = strings(&["powersave", "performance"]);
    let drivers = strings(&["intel_pstate", "intel_pstate"]);
    let freqs = strings(&["800000", "2200000"]);
    assert_eq!(
        percpu_stats(&governors, &drivers, &freqs),
        "CPU0\tpowersave\tintel_pstate\t800000\nCPU1\tperformance\tintel_pstate\t2200000\n"
    );
    assert_eq!(percpu_stats(&Vec::new(), &Vec::new(), &Vec::new()), "");
}

#[test]
fn the_table_ends_with_the_shortest_list() {
    let three = strings(&["a", "b", "c"]);
    let two = strings(&["x", "y"]);
    let one = strings(&["1"]);
    assert_eq!(percpu_stats(&three, &two, &one), "CPU0\ta\tx\t1\n");
    assert_eq!(percpu_stats(&one, &three, &two), "CPU0\t1\ta\tx\n");
    assert_eq!(percpu_stats(&two, &three, &three), "CPU0\tx\ta\ta\nCPU1\ty\tb\tb\n");
    assert_eq!(percpu_stats(&three, &Vec::new(), &three), "");
    let many: Vec<String> = (0..12).map(|i| format!("g{}", i)).collect();
    let table = percpu_stats(&many, &many, &many);
    assert!(table.ends_with("CPU10\tg10\tg10\tg10\nCPU11\tg11\tg11\tg11\n"));
    assert_eq!(table.lines().count(), 12);
}
