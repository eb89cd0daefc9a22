use app_bootstrap::app_tracing::{
    assemble_pipeline, effective_filter, parse_filter, parse_level, EnvFilterWrapper, LayerConfig,
    PipelineSlot, RawFilter, RawLayerConfig, RawTracingConfig, RollingFileWriterConfig,
    SectionLookup, SeverityLevel, StdoutWriterConfig, TracingConfig, TracingError, WriterConfig,
    WriterTarget,
};

fn strings(parts: &[&str]) -> Vec<String> {
    parts.iter().map(|s| s.to_string()).collect()
}

fn rolling(path: &str) -> RollingFileWriterConfig {
    RollingFileWriterConfig { log_path: path.to_string() }
}

#[test]
fn canonical_levels_parse_in_order() {
    let names = ["trace", "debug", "info", "warn", "error"];
    let expected = [
        SeverityLevel::Trace,
        SeverityLevel::Debug,
        SeverityLevel::Info,
        SeverityLevel::Warn,
        SeverityLevel::Error,
    ];
    let mut parsed = Vec::new();
    for (name, level) in names.iter().zip(expected.iter()) {
        let l = parse_level(name).unwrap();
        assert_eq!(l, *level);
        assert_eq!(l.as_str(), *name);
        parsed.push(l);
    }
    for i in 0..parsed.len() {
        for j in 0..parsed.len() {
            assert_eq!(parsed[i].is_less_severe_than(&parsed[j]), i < j);
        }
    }
    assert_eq!(SeverityLevel::all(), expected.to_vec());
}

#[test]
fn unknown_level_is_rejected_with_its_text() {
    for bad in ["INFO", "Warn", "verbose", "", "info "] {
        match parse_level(bad) {
            Err(TracingError::InvalidLevelValue { value, accepted }) => {
                assert_eq!(value, bad);
                assert_eq!(accepted, SeverityLevel::all());
            }
            other => panic!("unexpected outcome for {:?}: {:?}", bad, other),
        }
    }
}

#[test]
fn level_threshold_admits_equal_and_more_severe() {
    assert!(SeverityLevel::Info.admits(&SeverityLevel::Info));
    assert!(SeverityLevel::Info.admits(&SeverityLevel::Error));
    assert!(!SeverityLevel::Warn.admits(&SeverityLevel::Info));
    assert!(SeverityLevel::Trace.admits(&SeverityLevel::Trace));
}

#[test]
fn directive_sequence_joins_with_commas() {
    let f = EnvFilterWrapper::from_directives(&strings(&["core=debug", "io=warn"])).unwrap();
    assert_eq!(f.directives(), "core=debug,io=warn");
    let again = EnvFilterWrapper::from_directives(&strings(&[f.directives()])).unwrap();
    assert_eq!(again.directives(), f.directives());
}

#[test]
fn empty_directive_sequence_is_accepted() {
    let f = EnvFilterWrapper::from_directives(&Vec::new()).unwrap();
    assert_eq!(f.directives(), "");
    let g = EnvFilterWrapper::from_directives(&strings(&["a", ""])).unwrap();
    assert_eq!(g.directives(), "a,");
}

#[test]
fn invalid_directive_is_rejected_with_the_combined_text() {
    match EnvFilterWrapper::from_directives(&strings(&["core=debug", "io=loud"])) {
        Err(TracingError::InvalidFilterExpression { directives, diagnostic }) => {
            assert_eq!(directives, "core=debug,io=loud");
            assert!(!diagnostic.is_empty());
        }
        other => panic!("unexpected outcome: {:?}", other.map(|f| f.directives().to_string())),
    }
}

#[test]
fn level_filter_and_default_filter() {
    let f = parse_filter(&RawFilter::Level("warn".to_string())).unwrap();
    assert_eq!(f.directives(), "warn");
    assert_eq!(EnvFilterWrapper::default().directives(), "info");
    assert_eq!(EnvFilterWrapper::from_level(SeverityLevel::Debug).directives(), "debug");
    assert_eq!(f.duplicate().directives(), "warn");
    assert!(matches!(
        parse_filter(&RawFilter::Level("loud".to_string())),
        Err(TracingError::InvalidLevelValue { .. })
    ));
}

#[test]
fn layer_without_override_uses_the_default_filter() {
    let default = EnvFilterWrapper::from_level(SeverityLevel::Info);
    let layer = LayerConfig { filter: None, writer: WriterConfig::Stdout(StdoutWriterConfig {}) };
    let resolved = effective_filter(&layer, &default);
    assert!(std::ptr::eq(resolved, &default));
    assert_eq!(resolved.directives(), "info");

    let with_override = LayerConfig {
        filter: Some(EnvFilterWrapper::from_level(SeverityLevel::Error)),
        writer: WriterConfig::Stdout(StdoutWriterConfig {}),
    };
    assert_eq!(effective_filter(&with_override, &default).directives(), "error");
}

#[test]
fn rolling_file_path_with_directory() {
    match rolling("logs/app.log").configure().unwrap() {
        WriterTarget::HourlyFile { directory, file_name } => {
            assert_eq!(directory, "logs");
            assert_eq!(file_name, "app.log");
        }
        other => panic!("unexpected target {:?}", other),
    }
}

#[test]
fn rolling_file_bare_name_uses_current_directory() {
    match rolling("app.log").configure().unwrap() {
        WriterTarget::HourlyFile { directory, file_name } => {
            assert_eq!(directory, ".");
            assert_eq!(file_name, "app.log");
        }
        other => panic!("unexpected target {:?}", other),
    }
}

#[test]
fn rolling_file_nested_and_rooted_paths() {
    match rolling("/var/log/svc/app.log").configure().unwrap() {
        WriterTarget::HourlyFile { directory, file_name } => {
            assert_eq!(directory, "/var/log/svc");
            assert_eq!(file_name, "app.log");
        }
        other => panic!("unexpected target {:?}", other),
    }
    match rolling("/app.log").configure().unwrap() {
        WriterTarget::HourlyFile { directory, file_name } => {
            assert_eq!(directory, "/");
            assert_eq!(file_name, "app.log");
        }
        other => panic!("unexpected target {:?}", other),
    }
}

#[test]
fn rolling_file_path_without_file_name_is_rejected() {
    for bad in ["logs/", "", "/", "logs/..", "logs/.", "..", "."] {
        match rolling(bad).configure() {
            Err(TracingError::InvalidSinkPath { path }) => assert_eq!(path, bad),
            other => panic!("unexpected outcome for {:?}: {:?}", bad, other),
        }
    }
}

#[test]
fn console_writes_colours_and_files_do_not() {
    let console = StdoutWriterConfig {}.configure();
    assert!(console.ansi());
    let file = rolling("a/b.log").configure().unwrap();
    assert!(!file.ansi());
}

#[test]
fn absent_section_installs_an_empty_pipeline() {
    let config = TracingConfig::from_lookup(&SectionLookup::NotFound).unwrap();
    assert_eq!(config.filter.directives(), "info");
    assert!(config.layers.is_empty());
    let layers = assemble_pipeline(&config).unwrap();
    assert!(layers.is_empty());
    let mut slot = PipelineSlot::new();
    assert!(slot.install(layers.len()).is_ok());
    assert_eq!(slot.active_sinks(), Some(0));
}

#[test]
fn malformed_section_is_an_error() {
    match TracingConfig::from_lookup(&SectionLookup::Malformed("layers: expected a sequence".to_string())) {
        Err(TracingError::ConfigurationMalformed { reason }) => {
            assert_eq!(reason, "layers: expected a sequence")
        }
        _ => panic!("expected a malformed-configuration error"),
    }
}

#[test]
fn second_installation_is_refused() {
    let mut slot = PipelineSlot::new();
    assert_eq!(slot.active_sinks(), None);
    let config = TracingConfig::from_raw(&RawTracingConfig {
        filter: None,
        layers: Some(vec![RawLayerConfig {
            filter: None,
            writer: WriterConfig::Stdout(StdoutWriterConfig {}),
        }]),
    })
    .unwrap();
    let first = assemble_pipeline(&config).unwrap();
    assert!(slot.install(first.len()).is_ok());
    let second = assemble_pipeline(&TracingConfig::builtin()).unwrap();
    assert!(matches!(slot.install(second.len()), Err(TracingError::AlreadyInitialized)));
    assert_eq!(slot.active_sinks(), Some(1));
}

#[test]
fn override_filter_keeps_info_events_out_of_the_file() {
    let raw = RawTracingConfig {
        filter: Some(RawFilter::Level("info".to_string())),
        layers: Some(vec![
            RawLayerConfig { filter: None, writer: WriterConfig::Stdout(StdoutWriterConfig {}) },
            RawLayerConfig {
                filter: Some(RawFilter::Level("warn".to_string())),
                writer: WriterConfig::RollingFile(rolling("logs/app.log")),
            },
        ]),
    };
    let config = TracingConfig::from_lookup(&SectionLookup::Found(raw)).unwrap();
    let layers = assemble_pipeline(&config).unwrap();
    assert_eq!(layers.len(), 2);
    assert!(matches!(layers[0].target, WriterTarget::Stdout));
    assert_eq!(layers[0].filter.directives(), "info");
    assert!(matches!(layers[1].target, WriterTarget::HourlyFile { .. }));
    assert_eq!(layers[1].filter.directives(), "warn");
    let console = parse_level(layers[0].filter.directives()).unwrap();
    let file = parse_level(layers[1].filter.directives()).unwrap();
    assert!(console.admits(&SeverityLevel::Info));
    assert!(!file.admits(&SeverityLevel::Info));
}

#[test]
fn first_invalid_filter_is_reported() {
    let raw = RawTracingConfig {
        filter: None,
        layers: Some(vec![
            RawLayerConfig { filter: None, writer: WriterConfig::Stdout(StdoutWriterConfig {}) },
            RawLayerConfig {
                filter: Some(RawFilter::Level("chatty".to_string())),
                writer: WriterConfig::Stdout(StdoutWriterConfig {}),
            },
            RawLayerConfig {
                filter: Some(RawFilter::Directives(strings(&["x=nope"]))),
                writer: WriterConfig::Stdout(StdoutWriterConfig {}),
            },
        ]),
    };
    match TracingConfig::from_raw(&raw) {
        Err(TracingError::InvalidLevelValue { value, .. }) => assert_eq!(value, "chatty"),
        _ => panic!("expected the first layer's level error"),
    }
    let bad_default = RawTracingConfig {
        filter: Some(RawFilter::Directives(strings(&["x=nope"]))),
        layers: None,
    };
    match TracingConfig::from_raw(&bad_default) {
        Err(TracingError::InvalidFilterExpression { directives, .. }) => assert_eq!(directives, "x=nope"),
        _ => panic!("expected the default filter's error"),
    }
}

#[test]
fn invalid_sink_aborts_assembly() {
    let raw = RawTracingConfig {
        filter: None,
        layers: Some(vec![
            RawLayerConfig { filter: None, writer: WriterConfig::Stdout(StdoutWriterConfig {}) },
            RawLayerConfig { filter: None, writer: WriterConfig::RollingFile(rolling("logs/")) },
        ]),
    };
    let config = TracingConfig::from_raw(&raw).unwrap();
    match assemble_pipeline(&config) {
        Err(TracingError::InvalidSinkPath { path }) => assert_eq!(path, "logs/"),
        _ => panic!("expected an invalid sink path"),
    }
}

#[test]
fn dotted_file_names_are_kept() {
    match rolling("logs/.app.log").configure().unwrap() {
        WriterTarget::HourlyFile { directory, file_name } => {
            assert_eq!(directory, "logs");
            assert_eq!(file_name, ".app.log");
        }
        other => panic!("unexpected target {:?}", other),
    }
    match rolling("logs/...").configure().unwrap() {
        WriterTarget::HourlyFile { file_name, .. } => assert_eq!(file_name, "..."),
        other => panic!("unexpected target {:?}", other),
    }
}

#[test]
fn directive_beginning_with_white_space_is_rejected() {
    for parts in [vec![" \u{e9}=info"], vec!["core=debug", " io=warn"], vec!["\tinfo"]] {
        match EnvFilterWrapper::from_directives(&strings(&parts)) {
            Err(TracingError::InvalidFilterExpression { directives, .. }) => {
                assert_eq!(directives, parts.join(","))
            }
            other => panic!("unexpected outcome: {:?}", other.map(|f| f.directives().to_string())),
        }
    }
}

#[test]
fn single_level_directive_sequences_compile() {
    for name in ["trace", "debug", "info", "warn", "error"] {
        let f = EnvFilterWrapper::from_directives(&strings(&[name])).unwrap();
        assert_eq!(f.directives(), name);
    }
    let config = TracingConfig::from_lookup(&SectionLookup::Found(RawTracingConfig {
        filter: Some(RawFilter::Directives(strings(&["debug"]))),
        layers: None,
    }))
    .unwrap();
    assert_eq!(config.filter.directives(), "debug");
    assert!(assemble_pipeline(&config).unwrap().is_empty());
}
