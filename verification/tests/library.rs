use g14_perf_control::config::{Config, ProfileConfig, Profiles, RawConfig, RawProfileConfig, RawProfiles};
use g14_perf_control::control::{find_waybar, waybar_pid, waybar_signal, Action, Control};
use g14_perf_control::errors::{Error, FanKind, WriteTarget};
use g14_perf_control::state::State;

fn empty_config() -> Config {
    Config {
        waybar_notify: None,
        profiles: Profiles { normal: None, boost: None, silent: None },
    }
}

fn state_silent() -> State {
    State::from_contents("2\n", "0\n").unwrap()
}

#[test]
fn probe_parses_fan_and_turbo() {
    let st = State::from_contents(" 1\n", "1\n").unwrap();
    assert_eq!(st.fan_profile(), 1);
    assert_eq!(st.fan_profile_str(), "boost");
}

#[test]
fn probe_names_all_profiles() {
    assert_eq!(State::from_contents("0", "0").unwrap().fan_profile_str(), "normal");
    assert_eq!(State::from_contents("1", "0").unwrap().fan_profile_str(), "boost");
    assert_eq!(State::from_contents("2", "0").unwrap().fan_profile_str(), "silent");
}

#[test]
fn probe_rejects_malformed_contents() {
    assert_eq!(State::from_contents("abc", "0"), Err(Error::StateMalformed));
    assert_eq!(State::from_contents("", "0"), Err(Error::StateMalformed));
    assert_eq!(State::from_contents("  \n", "0"), Err(Error::StateMalformed));
    assert_eq!(State::from_contents("999", "0"), Err(Error::StateMalformed));
    assert_eq!(State::from_contents("1", "x"), Err(Error::StateMalformed));
    assert_eq!(State::from_contents("1", ""), Err(Error::StateMalformed));
    assert_eq!(State::from_contents("1 2", "0"), Err(Error::StateMalformed));
}

#[test]
fn probe_rejects_out_of_range_fan_profile() {
    assert_eq!(State::from_contents("3", "0"), Err(Error::StateMalformed));
    assert_eq!(State::from_contents("255", "1"), Err(Error::StateMalformed));
}

#[test]
fn probe_reads_turbo_as_boolean() {
    let json_on = State::from_contents("0", "2").unwrap().json_string();
    assert_eq!(json_on, "{\"fan_profile\": \"normal\", \"turbo\": true}");
    let json_off = State::from_contents("0", "0").unwrap().json_string();
    assert_eq!(json_off, "{\"fan_profile\": \"normal\", \"turbo\": false}");
}

#[test]
fn info_json_exact_shape() {
    let st = State::from_contents("1", "1").unwrap();
    assert_eq!(st.json_string(), "{\"fan_profile\": \"boost\", \"turbo\": true}");
}

#[test]
fn info_json_round_trips() {
    // the document is one line of JSON with fixed punctuation: strip it back
    // down by hand and compare with what the probe read
    let st = State::from_contents("2", "1").unwrap();
    let json = st.json_string();
    let inner = json.strip_prefix("{\"fan_profile\": \"").unwrap();
    let (name, rest) = inner.split_once("\", \"turbo\": ").unwrap();
    let turbo = rest.strip_suffix("}").unwrap();
    assert_eq!(name, st.fan_profile_str());
    assert_eq!(turbo, "true");
}

#[test]
fn info_human_rendering() {
    let st = State::from_contents("1", "1").unwrap();
    assert_eq!(st.human_string(), "Fan profile: boost, Turbo: true");
}

#[test]
fn config_minimal_loads() {
    let raw = RawConfig {
        waybar_notify: None,
        profiles: RawProfiles { normal: None, boost: None, silent: None },
    };
    let config = Config::from_raw(&raw).unwrap();
    assert!(config.waybar_notify.is_none());
    assert!(config.profiles.normal.is_none());
    assert!(config.profiles.boost.is_none());
    assert!(config.profiles.silent.is_none());
}

#[test]
fn config_accepts_good_curves() {
    let raw = RawConfig {
        waybar_notify: Some(3),
        profiles: RawProfiles {
            normal: None,
            boost: Some(RawProfileConfig {
                turbo: Some(true),
                cpu_curve: Some(String::from("30c:0%,40c:5%,50c:10%,60c:20%,70c:35%,80c:55%,90c:65%,100c:65%")),
                gpu_curve: None,
            }),
            silent: None,
        },
    };
    let config = Config::from_raw(&raw).unwrap();
    assert_eq!(config.waybar_notify, Some(3));
    let boost = config.profiles.boost.as_ref().unwrap();
    assert_eq!(boost.turbo, Some(true));
    assert!(boost.cpu_curve.is_some());
    assert!(boost.gpu_curve.is_none());
}

#[test]
fn config_rejects_bad_curve() {
    let raw = RawConfig {
        waybar_notify: None,
        profiles: RawProfiles {
            normal: Some(RawProfileConfig {
                turbo: None,
                cpu_curve: Some(String::from("not a curve")),
                gpu_curve: None,
            }),
            boost: None,
            silent: None,
        },
    };
    match Config::from_raw(&raw) {
        Err(Error::ConfigMalformed) => {}
        _ => panic!("expected ConfigMalformed"),
    }
}

#[test]
fn set_normal_minimal_config_plans_one_write() {
    let control = Control::new(state_silent(), empty_config());
    let plan = control.plan_for(0);
    assert_eq!(plan, vec![Action::WriteFanProfile(0)]);
}

#[test]
fn set_boost_with_turbo_and_curves_plans_in_order() {
    let config = Config {
        waybar_notify: None,
        profiles: Profiles {
            normal: None,
            boost: Some(ProfileConfig {
                turbo: Some(true),
                cpu_curve: Some(rog_fan_curve::Curve::new()),
                gpu_curve: Some(rog_fan_curve::Curve::new()),
            }),
            silent: None,
        },
    };
    let control = Control::new(state_silent(), config);
    let plan = control.plan_for(1);
    assert_eq!(
        plan,
        vec![
            Action::WriteFanProfile(1),
            Action::WriteTurbo(true),
            Action::ApplyCpuCurve,
            Action::ApplyGpuCurve,
        ]
    );
}

#[test]
fn toggle_from_silent_wraps_to_normal() {
    let st = state_silent();
    assert_eq!(st.fan_profile(), 2);
    let next = (st.fan_profile() + 1) % 3;
    assert_eq!(next, 0);
    let control = Control::new(st, empty_config());
    let plan = control.plan_for(next);
    assert_eq!(plan[0], Action::WriteFanProfile(0));
}

#[test]
fn set_silent_with_notification_plans_signal_last() {
    let config = Config {
        waybar_notify: Some(3),
        profiles: Profiles {
            normal: None,
            boost: None,
            silent: Some(ProfileConfig { turbo: Some(false), cpu_curve: None, gpu_curve: None }),
        },
    };
    let control = Control::new(state_silent(), config);
    let plan = control.plan_for(2);
    assert_eq!(
        plan,
        vec![Action::WriteFanProfile(2), Action::WriteTurbo(false), Action::NotifyWaybar(3)]
    );
}

#[test]
fn absent_profile_still_notifies() {
    let config = Config {
        waybar_notify: Some(5),
        profiles: Profiles { normal: None, boost: None, silent: None },
    };
    let control = Control::new(state_silent(), config);
    let plan = control.plan_for(0);
    assert_eq!(plan, vec![Action::WriteFanProfile(0), Action::NotifyWaybar(5)]);
}

#[test]
fn absent_turbo_is_not_touched() {
    let config = Config {
        waybar_notify: None,
        profiles: Profiles {
            normal: None,
            boost: Some(ProfileConfig {
                turbo: None,
                cpu_curve: Some(rog_fan_curve::Curve::new()),
                gpu_curve: None,
            }),
            silent: None,
        },
    };
    let control = Control::new(state_silent(), config);
    let plan = control.plan_for(1);
    assert_eq!(plan, vec![Action::WriteFanProfile(1), Action::ApplyCpuCurve]);
    assert!(plan.iter().all(|a| !matches!(a, Action::WriteTurbo(_))));
}

#[test]
fn set_unknown_profile_is_rejected() {
    let control = Control::new(state_silent(), empty_config());
    match control.set("turbo_extreme") {
        Err(Error::UnknownProfile(name)) => {
            assert_eq!(name, "turbo_extreme");
            assert_eq!(
                Error::UnknownProfile(name).message(),
                "Unknown Profile turbo_extreme"
            );
        }
        _ => panic!("expected UnknownProfile"),
    }
}

#[test]
fn set_fails_without_a_recognized_board() {
    // this machine is not one of the boards the library recognizes, so the
    // pre-flight identification must refuse the transition before any write
    let control = Control::new(state_silent(), empty_config());
    match control.set("normal") {
        Err(Error::InvalidBoard) => {}
        _ => panic!("expected InvalidBoard"),
    }
}

#[test]
fn find_waybar_takes_first_match() {
    let procs = vec![
        (1, String::from("systemd")),
        (41, String::from("waybarx")),
        (77, String::from("waybar")),
        (90, String::from("waybar")),
    ];
    assert_eq!(find_waybar(&procs), Some(77));
}

#[test]
fn find_waybar_skips_silently_when_absent() {
    let procs = vec![(1, String::from("systemd")), (41, String::from("bash"))];
    assert_eq!(find_waybar(&procs), None);
    assert_eq!(find_waybar(&Vec::new()), None);
}

#[test]
fn waybar_pid_scans_the_real_process_table() {
    // no waybar runs here; the scan must come back empty rather than fail
    assert_eq!(waybar_pid(), None);
}

#[test]
fn signal_is_sigrtmin_plus_offset() {
    assert_eq!(waybar_signal(34, 3), 37);
    assert_eq!(waybar_signal(34, 0), 34);
}

#[test]
fn error_messages() {
    assert_eq!(Error::InvalidBoard.message(), "Invalid Board. Are you using a G14?");
    assert_eq!(
        Error::KernelWriteFailed(WriteTarget::FanProfile).message(),
        "Failed to write to the kernel fan_profile file"
    );
    assert_eq!(
        Error::KernelWriteFailed(WriteTarget::Turbo).message(),
        "Failed to write to the kernel turbo file"
    );
    assert_eq!(
        Error::CurveApplyFailed(FanKind::Cpu).message(),
        "Failed to apply the cpu fan curve"
    );
    assert_eq!(
        Error::CurveApplyFailed(FanKind::Gpu).message(),
        "Failed to apply the gpu fan curve"
    );
    assert_eq!(Error::StateMalformed.message(), "Kernel control file contents are malformed");
}

#[test]
fn apply_curve_without_curve_is_a_no_op() {
    let config = Config {
        waybar_notify: None,
        profiles: Profiles {
            normal: None,
            boost: None,
            silent: Some(ProfileConfig { turbo: Some(false), cpu_curve: None, gpu_curve: None }),
        },
    };
    let control = Control::new(state_silent(), config);
    let board = rog_fan_curve::Board::from_name("GA401IV").unwrap();
    assert_eq!(control.apply_curve(2, board, FanKind::Cpu), Ok(()));
    assert_eq!(control.apply_curve(0, board, FanKind::Gpu), Ok(()));
}

fn simulate_kernel(mut kernel: (u8, bool), plan: &[Action]) -> (u8, bool) {
    for action in plan {
        match action {
            Action::WriteFanProfile(i) => kernel.0 = *i,
            Action::WriteTurbo(b) => kernel.1 = *b,
            _ => {}
        }
    }
    kernel
}

#[test]
fn every_index_is_written_first() {
    let config = Config {
        waybar_notify: Some(1),
        profiles: Profiles {
            normal: Some(ProfileConfig { turbo: Some(true), cpu_curve: None, gpu_curve: None }),
            boost: None,
            silent: Some(ProfileConfig { turbo: None, cpu_curve: None, gpu_curve: None }),
        },
    };
    let control = Control::new(state_silent(), config);
    for index in 0..3u8 {
        let plan = control.plan_for(index);
        assert_eq!(plan[0], Action::WriteFanProfile(index));
    }
}

#[test]
fn toggle_advances_modulo_three() {
    let control = Control::new(state_silent(), empty_config());
    for (current, expected) in [(0u8, 1u8), (1, 2), (2, 0)] {
        let next = (current + 1) % 3;
        assert_eq!(next, expected);
        assert_eq!(control.plan_for(next)[0], Action::WriteFanProfile(expected));
    }
}

#[test]
fn known_names_pass_name_resolution() {
    // on this machine resolution succeeds and the transition then stops at
    // board identification, never at the name
    let control = Control::new(state_silent(), empty_config());
    for name in ["normal", "boost", "silent"] {
        match control.set(name) {
            Err(Error::UnknownProfile(_)) => panic!("name {} should be known", name),
            _ => {}
        }
    }
}

#[test]
fn running_a_plan_twice_changes_nothing_more() {
    let configs = [
        empty_config(),
        Config {
            waybar_notify: Some(2),
            profiles: Profiles {
                normal: Some(ProfileConfig {
                    turbo: Some(true),
                    cpu_curve: Some(rog_fan_curve::Curve::new()),
                    gpu_curve: None,
                }),
                boost: Some(ProfileConfig { turbo: None, cpu_curve: None, gpu_curve: None }),
                silent: Some(ProfileConfig { turbo: Some(false), cpu_curve: None, gpu_curve: None }),
            },
        },
    ];
    for config in configs {
        let control = Control::new(state_silent(), config);
        for index in 0..3u8 {
            let plan = control.plan_for(index);
            for start in [(0u8, false), (2, true)] {
                let once = simulate_kernel(start, &plan);
                let twice = simulate_kernel(once, &plan);
                assert_eq!(once, twice);
            }
        }
    }
}
