use x264_session::{
    fast_decode_name, zero_latency_name, Base, Colorspace, Directive, Encoder, Encoding, Error, Geometry, Modifier, Preset, Profile,
    RateControl, Setup, Tune,
};

fn plain(setup: Setup) -> Vec<Directive> {
    setup.build(Colorspace::I420.into(), 16, 16).steps().to_vec()
}

#[test]
fn a_default_builder_starts_from_the_engine_defaults() {
    let parameters = Setup::default().build(Colorspace::I420.into(), 16, 16);
    assert_eq!(parameters.base(), Base::Default);
    assert!(parameters.steps().is_empty());
    assert_eq!(parameters.rate_control(), None);
    let parameters = Encoder::builder().build(Colorspace::I420.into(), 16, 16);
    assert_eq!(parameters.base(), Base::Default);
    assert!(parameters.steps().is_empty());
}

#[test]
fn a_preset_builder_starts_from_its_preset_and_tune() {
    let parameters = Setup::preset(Preset::Veryfast, Tune::Film, true, false)
        .build(Colorspace::I420.into(), 16, 16);
    assert_eq!(
        parameters.base(),
        Base::Preset {
            preset: Preset::Veryfast,
            tune: Tune::Film,
            fast_decode: true,
            zero_latency: false,
        }
    );
    assert!(parameters.steps().is_empty());
}

#[test]
fn every_setter_records_its_setting() {
    assert_eq!(plain(Setup::default().fastfirstpass()), vec![Directive::FastFirstPass]);
    assert_eq!(plain(Setup::default().fps(30000, 1001)), vec![Directive::Fps { num: 30000, den: 1001 }]);
    assert_eq!(
        plain(Setup::default().timebase(1, 90000)),
        vec![Directive::Timebase { num: 1, den: 90000 }]
    );
    assert_eq!(plain(Setup::default().annexb(false)), vec![Directive::AnnexB { enabled: false }]);
    assert_eq!(plain(Setup::default().annexb(true)), vec![Directive::AnnexB { enabled: true }]);
    assert_eq!(plain(Setup::default().bitrate(4000)), vec![Directive::Bitrate { average: 4000 }]);
    assert_eq!(
        plain(Setup::default().crf(23.0f32.to_bits(), 51.0f32.to_bits())),
        vec![Directive::Crf { target: 0x41b8_0000, max: 0x424c_0000 }]
    );
    assert_eq!(plain(Setup::default().bframes(3)), vec![Directive::Bframes { limit: 3 }]);
    assert_eq!(plain(Setup::default().lookahead(0)), vec![Directive::Lookahead { frames: 0 }]);
    assert_eq!(plain(Setup::default().open_gop(true)), vec![Directive::OpenGop { enabled: true }]);
    assert_eq!(
        plain(Setup::default().baseline()),
        vec![Directive::Profile { profile: Profile::Baseline }]
    );
    assert_eq!(plain(Setup::default().main()), vec![Directive::Profile { profile: Profile::Main }]);
    assert_eq!(plain(Setup::default().high()), vec![Directive::Profile { profile: Profile::High }]);
    assert_eq!(
        plain(Setup::default().max_keyframe_interval(250)),
        vec![Directive::MaxKeyframeInterval { interval: 250 }]
    );
    assert_eq!(
        plain(Setup::default().min_keyframe_interval(25)),
        vec![Directive::MinKeyframeInterval { interval: 25 }]
    );
    assert_eq!(
        plain(Setup::default().scenecut_threshold(40)),
        vec![Directive::ScenecutThreshold { threshold: 40 }]
    );
}

#[test]
fn settings_are_kept_in_the_order_made() {
    let steps = plain(
        Setup::preset(Preset::Medium, Tune::Untuned, false, true)
            .bframes(3)
            .baseline()
            .bframes(2)
            .fps(25, 1)
            .high()
            .fps(50, 1),
    );
    assert_eq!(
        steps,
        vec![
            Directive::Bframes { limit: 3 },
            Directive::Profile { profile: Profile::Baseline },
            Directive::Bframes { limit: 2 },
            Directive::Fps { num: 25, den: 1 },
            Directive::Profile { profile: Profile::High },
            Directive::Fps { num: 50, den: 1 },
        ]
    );
}

#[test]
fn crf_after_bitrate_leaves_crf_in_force() {
    let target = 23.0f32.to_bits();
    let max = 0.0f32.to_bits();
    let setup = Setup::default().bitrate(4000).crf(target, max);
    assert_eq!(setup.rate_control(), Some(RateControl::Crf { target, max }));
    let parameters = setup.build(Colorspace::I420.into(), 1920, 1080);
    assert_eq!(parameters.rate_control(), Some(RateControl::Crf { target, max }));
    assert_eq!(
        parameters.steps(),
        &[Directive::Bitrate { average: 4000 }, Directive::Crf { target, max }][..]
    );
}

#[test]
fn bitrate_after_crf_leaves_bitrate_in_force() {
    let setup = Setup::default().crf(23.0f32.to_bits(), 51.0f32.to_bits()).bitrate(2500);
    assert_eq!(setup.rate_control(), Some(RateControl::Bitrate { average: 2500 }));
    let setup = setup.bitrate(1200);
    assert_eq!(setup.rate_control(), Some(RateControl::Bitrate { average: 1200 }));
}

#[test]
fn other_settings_leave_the_rate_control_alone() {
    let setup = Setup::default().fps(30, 1).baseline();
    assert_eq!(setup.rate_control(), None);
    let setup = setup
        .bitrate(800)
        .fastfirstpass()
        .fps(24, 1)
        .timebase(1, 24)
        .annexb(false)
        .bframes(0)
        .lookahead(10)
        .open_gop(false)
        .main()
        .max_keyframe_interval(48)
        .min_keyframe_interval(4)
        .scenecut_threshold(0);
    assert_eq!(setup.rate_control(), Some(RateControl::Bitrate { average: 800 }));
}

#[test]
fn a_directive_tells_the_rate_control_it_chooses() {
    assert_eq!(
        Directive::Bitrate { average: 7 }.rate_control(),
        Some(RateControl::Bitrate { average: 7 })
    );
    assert_eq!(
        Directive::Crf { target: 1, max: 2 }.rate_control(),
        Some(RateControl::Crf { target: 1, max: 2 })
    );
    assert_eq!(Directive::Bframes { limit: 7 }.rate_control(), None);
    assert_eq!(Directive::FastFirstPass.rate_control(), None);
}

#[test]
fn build_writes_the_format_and_size_last() {
    let format = Encoding::from(Colorspace::I422).add_modifier(Modifier::HighDepth);
    let parameters = Setup::default().fps(60, 1).build(format, 1280, 720);
    assert_eq!(parameters.encoding(), format);
    assert_eq!(parameters.width(), 1280);
    assert_eq!(parameters.height(), 720);
    assert_eq!(parameters.steps(), &[Directive::Fps { num: 60, den: 1 }][..]);
}

#[test]
fn an_opened_session_reports_the_size_it_was_built_for() {
    let format = Encoding::from(Colorspace::I420);
    let parameters = Setup::default()
        .crf(23.0f32.to_bits(), 51.0f32.to_bits())
        .build(format, 1920, 1080);
    // An engine that takes the parameters as they are reports them back.
    let reported = Geometry {
        format: parameters.encoding(),
        width: parameters.width(),
        height: parameters.height(),
    };
    let encoder = parameters.open(Some(reported)).unwrap();
    assert_eq!(encoder.width(), 1920);
    assert_eq!(encoder.height(), 1080);
    assert_eq!(encoder.encoding(), Encoding::from(Colorspace::I420));
}

#[test]
fn an_opened_session_goes_by_what_the_engine_reports() {
    let parameters = Setup::default().build(Colorspace::I420.into(), 1921, 1080);
    let reported = Geometry { format: Colorspace::NV12.into(), width: 1920, height: 1088 };
    let encoder = parameters.open(Some(reported)).unwrap();
    assert_eq!(encoder.width(), 1920);
    assert_eq!(encoder.height(), 1088);
    assert_eq!(encoder.encoding(), Encoding::from(Colorspace::NV12));
}

#[test]
fn a_missing_handle_is_an_open_failure() {
    let parameters = Setup::default().build(Colorspace::I420.into(), 0, 0);
    assert_eq!(parameters.open(None).err(), Some(Error::EncoderOpenFailed));
}

#[test]
fn presets_and_tunes_have_the_engine_names() {
    let presets = [
        (Preset::Ultrafast, "ultrafast"),
        (Preset::Superfast, "superfast"),
        (Preset::Veryfast, "veryfast"),
        (Preset::Faster, "faster"),
        (Preset::Fast, "fast"),
        (Preset::Medium, "medium"),
        (Preset::Slow, "slow"),
        (Preset::Slower, "slower"),
        (Preset::Veryslow, "veryslow"),
        (Preset::Placebo, "placebo"),
    ];
    for (preset, name) in presets {
        assert_eq!(preset.name(), name);
    }
    let tunes = [
        (Tune::Untuned, ""),
        (Tune::Film, "film"),
        (Tune::Animation, "animation"),
        (Tune::Grain, "grain"),
        (Tune::StillImage, "stillimage"),
        (Tune::Psnr, "psnr"),
        (Tune::Ssim, "ssim"),
    ];
    for (tune, name) in tunes {
        assert_eq!(tune.name(), name);
    }
    assert_eq!(fast_decode_name(true), "fastdecode");
    assert_eq!(fast_decode_name(false), "");
    assert_eq!(zero_latency_name(true), "zerolatency");
    assert_eq!(zero_latency_name(false), "");
    assert_eq!(Profile::Baseline.name(), "baseline");
    assert_eq!(Profile::Main.name(), "main");
    assert_eq!(Profile::High.name(), "high");
}
