//! An immutable logging backend: an `env_logger` logger together with the
//! filter level and write style it was built with.
use vstd::prelude::*;

use crate::style::{ColorChoice, FilterLevel, WriteStyle, write_style_of};
use env_logger::{Builder, Logger};
use log::{Log, Metadata, Record};

verus! {

#[verifier::external_type_specification]
#[verifier::external_body]
pub struct ExLogger(env_logger::Logger);

#[verifier::external_type_specification]
#[verifier::external_body]
pub struct ExBuilder(env_logger::Builder);

#[verifier::external_type_specification]
#[verifier::external_body]
pub struct ExRecord<'a>(log::Record<'a>);

#[verifier::external_type_specification]
#[verifier::external_body]
pub struct ExMetadata<'a>(log::Metadata<'a>);

/// Relies on env_logger's `Builder::from_default_env`: a builder configured
/// from the `RUST_LOG` and `RUST_LOG_STYLE` variables. What it holds depends
/// on the environment, so nothing is stated of it.
pub assume_specification[ env_logger::Builder::from_default_env ]() -> Builder;

/// Relies on env_logger's `Builder::build`: a logger made from what the
/// builder holds.
pub assume_specification[ env_logger::Builder::build ](builder: &mut Builder) -> Logger;

/// Relies on env_logger's `Builder::write_style`: sets the style that the
/// built logger writes with, overriding `RUST_LOG_STYLE`.
#[verifier::external_body]
fn builder_write_style(builder: &mut Builder, style: WriteStyle) {
    builder.write_style(
        match style {
            WriteStyle::Auto => env_logger::WriteStyle::Auto,
            WriteStyle::Always => env_logger::WriteStyle::Always,
            WriteStyle::Never => env_logger::WriteStyle::Never,
        },
    );
}

/// Relies on env_logger's `Logger::filter`: the most verbose level that the
/// logger lets through, which comes from the environment.
#[verifier::external_body]
fn logger_filter(logger: &Logger) -> FilterLevel {
    match logger.filter() {
        log::LevelFilter::Off => FilterLevel::Off,
        log::LevelFilter::Error => FilterLevel::Error,
        log::LevelFilter::Warn => FilterLevel::Warn,
        log::LevelFilter::Info => FilterLevel::Info,
        log::LevelFilter::Debug => FilterLevel::Debug,
        log::LevelFilter::Trace => FilterLevel::Trace,
    }
}

/// Relies on `<env_logger::Logger as log::Log>::log`: formats and writes the
/// record when the logger's filter lets it through.
#[verifier::external_body]
fn logger_log(logger: &Logger, record: &Record) {
    logger.log(record)
}

/// Relies on `<env_logger::Logger as log::Log>::enabled`: whether the
/// logger's filter lets records with this metadata through.
#[verifier::external_body]
fn logger_enabled(logger: &Logger, metadata: &Metadata) -> bool {
    logger.enabled(metadata)
}

/// Relies on `<env_logger::Logger as log::Log>::flush`.
#[verifier::external_body]
fn logger_flush(logger: &Logger) {
    logger.flush()
}

/// The configuration that a backend was built with.
#[derive(Clone, Copy, Debug, PartialEq, Eq, Structural)]
pub struct BackendConfig {
    pub filter_level: FilterLevel,
    pub write_style: WriteStyle,
}

/// Two backends built from one colour choice write in the same style.
pub proof fn lemma_build_same_write_style(color_choice: ColorChoice, a: Backend, b: Backend)
    requires
        a@.write_style == write_style_of(color_choice),
        b@.write_style == write_style_of(color_choice),
    ensures
        a@.write_style == b@.write_style,
{
}

/// A logger snapshot. It is never changed once built: a new configuration
/// is a new backend.
#[derive(Debug)]
pub struct Backend {
    logger: Logger,
    config: BackendConfig,
}

impl View for Backend {
    type V = BackendConfig;

    closed spec fn view(&self) -> BackendConfig {
        self.config
    }
}

impl Backend {
    /// Builds a backend from the environment's filter settings, writing in
    /// the style that `color_choice` selects.
    pub fn build(color_choice: ColorChoice) -> (r: Backend)
        ensures
            r@.write_style == write_style_of(color_choice),
    {
        let mut builder = Builder::from_default_env();
        let write_style = color_choice.write_style();
        builder_write_style(&mut builder, write_style);
        let logger = builder.build();
        let filter_level = logger_filter(&logger);
        Backend { logger, config: BackendConfig { filter_level, write_style } }
    }

    /// The configuration this backend was built with.
    pub fn config(&self) -> (r: BackendConfig)
        ensures
            r == self@,
    {
        self.config
    }

    /// The most verbose level this backend lets through.
    pub fn filter_level(&self) -> (r: FilterLevel)
        ensures
            r == self@.filter_level,
    {
        self.config.filter_level
    }

    /// The style this backend writes with.
    pub fn write_style(&self) -> (r: WriteStyle)
        ensures
            r == self@.write_style,
    {
        self.config.write_style
    }

    /// Hands a record to the underlying logger.
    pub fn log(&self, record: &Record) {
        logger_log(&self.logger, record)
    }

    /// Whether the underlying logger would write a record with this metadata.
    pub fn enabled(&self, metadata: &Metadata) -> bool {
        logger_enabled(&self.logger, metadata)
    }

    /// Flushes the underlying logger.
    pub fn flush(&self) {
        logger_flush(&self.logger)
    }
}

} // verus!
