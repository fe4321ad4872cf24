//! The sensor group of an AMD graphics card: which files it is made of,
//! what is read from them and what is written to them.
//!
//! Nothing here touches the file system. A read arrives as a `FileRead`:
//! the text that the caller found in the file, or what kept it from
//! reading. A write leaves as a `FileWrite` for the caller to carry out.

use crate::text::{
    decimal_of, first_line_of, lemma_written_number_reads_back, parse_i32, parse_signed,
    read_first_line, write_decimal,
};
use std::cmp::Ordering;
use vstd::prelude::*;
use vstd::std_specs::cmp::PartialOrdSpecImpl;
use vstd::std_specs::convert::FromSpecImpl;
use vstd::string::StringExecFns;

verus! {

/// The error type of `std::io`. The library hands such a value on and never
/// looks inside it.
#[verifier::external_type_specification]
#[verifier::external_body]
pub struct ExIoError(std::io::Error);

/// A GPU temperature in raw units (thousandths of a degree Celsius).
/// Temperatures are ordered as their raw numbers are.
#[derive(Debug, Clone, Copy, PartialEq, Eq, Structural, Ord)]
pub struct Temperature(pub i32);

/// How the number `left` stands to the number `right`.
pub open spec fn numeric_order(left: i32, right: i32) -> Ordering {
    if left < right {
        Ordering::Less
    } else if left > right {
        Ordering::Greater
    } else {
        Ordering::Equal
    }
}

impl PartialOrd for Temperature {
    fn partial_cmp(&self, other: &Temperature) -> (order: Option<Ordering>) {
        if self.0 < other.0 {
            Some(Ordering::Less)
        } else if self.0 > other.0 {
            Some(Ordering::Greater)
        } else {
            Some(Ordering::Equal)
        }
    }
}

impl PartialOrdSpecImpl for Temperature {
    open spec fn obeys_partial_cmp_spec() -> bool {
        true
    }

    open spec fn partial_cmp_spec(&self, other: &Temperature) -> Option<Ordering> {
        Some(numeric_order(self.0, other.0))
    }
}

/// GPU fan PWM value. What it means depends on the least and the greatest
/// value that the device takes. PWM values are ordered as their raw numbers
/// are.
#[derive(Debug, Clone, Copy, PartialEq, Eq, Structural, Ord)]
pub struct Pwm(pub i32);

impl PartialOrd for Pwm {
    fn partial_cmp(&self, other: &Pwm) -> (order: Option<Ordering>) {
        if self.0 < other.0 {
            Some(Ordering::Less)
        } else if self.0 > other.0 {
            Some(Ordering::Greater)
        } else {
            Some(Ordering::Equal)
        }
    }
}

impl PartialOrdSpecImpl for Pwm {
    open spec fn obeys_partial_cmp_spec() -> bool {
        true
    }

    open spec fn partial_cmp_spec(&self, other: &Pwm) -> Option<Ordering> {
        Some(numeric_order(self.0, other.0))
    }
}

impl Pwm {
    /// The value in the device's own units.
    pub fn as_raw(self) -> (raw: i32)
        ensures
            raw == self.0,
    {
        self.0
    }
}

/// Who sets the fan speed: this controller, or the card by itself.
#[derive(Debug, Clone, Copy, PartialEq, Eq, Structural)]
pub enum PwmMode {
    Manual,
    Automatic,
}

/// What can go wrong with a sensor group.
#[derive(Debug)]
pub enum GpuError {
    /// IO failure while accessing the GPU device files
    Io(std::io::Error),
    /// Unexpected data has been read from a GPU device file: the file's
    /// path, and its first line if it had one.
    Parse(String, Option<String>),
    /// No fan speed could be computed between `min` and `max`. The share of
    /// the range that was asked for is kept as the bit pattern of an IEEE
    /// 754 double.
    InvalidFanSpeed { min: Pwm, max: Pwm, percentage_bits: u64 },
}

/// A `GpuError` with its texts as sequences of characters.
pub enum GpuErrorView {
    Io(std::io::Error),
    Parse(Seq<char>, Option<Seq<char>>),
    InvalidFanSpeed { min: Pwm, max: Pwm, percentage_bits: u64 },
}

impl View for GpuError {
    type V = GpuErrorView;

    open spec fn view(&self) -> GpuErrorView {
        match *self {
            GpuError::Io(cause) => GpuErrorView::Io(cause),
            GpuError::Parse(path, contents) => GpuErrorView::Parse(path@, contents.deep_view()),
            GpuError::InvalidFanSpeed { min, max, percentage_bits } => GpuErrorView::InvalidFanSpeed {
                min,
                max,
                percentage_bits,
            },
        }
    }
}

impl From<std::io::Error> for GpuError {
    fn from(other: std::io::Error) -> (error: GpuError) {
        GpuError::Io(other)
    }
}

impl FromSpecImpl<std::io::Error> for GpuError {
    open spec fn obeys_from_spec() -> bool {
        true
    }

    open spec fn from_spec(other: std::io::Error) -> GpuError {
        GpuError::Io(other)
    }
}

/// What came of reading a file.
#[derive(Debug)]
pub enum FileRead {
    /// There is no such file.
    Missing,
    /// The file is there, but reading it failed.
    Failed(std::io::Error),
    /// The text of the file, at least as far as its first line feed.
    Text(String),
}

/// A `FileRead` with its text as a sequence of characters.
pub enum FileReadView {
    Missing,
    Failed(std::io::Error),
    Text(Seq<char>),
}

impl View for FileRead {
    type V = FileReadView;

    open spec fn view(&self) -> FileReadView {
        match *self {
            FileRead::Missing => FileReadView::Missing,
            FileRead::Failed(cause) => FileReadView::Failed(cause),
            FileRead::Text(text) => FileReadView::Text(text@),
        }
    }
}

/// The number that a read of the file at `path` yields. The first line of
/// the text is to be a signed decimal number of 32 bits. A file that is
/// missing or empty, or whose first line is no such number, is a parse
/// error that names the path and the line, if there is one. A read that
/// failed otherwise is an IO error.
pub open spec fn value_read(path: Seq<char>, read: FileReadView) -> Result<i32, GpuErrorView> {
    match read {
        FileReadView::Missing => Err(GpuErrorView::Parse(path, None)),
        FileReadView::Failed(cause) => Err(GpuErrorView::Io(cause)),
        FileReadView::Text(text) => match first_line_of(text) {
            None => Err(GpuErrorView::Parse(path, None)),
            Some(line) => match parse_i32(line) {
                Some(value) => Ok(value),
                None => Err(GpuErrorView::Parse(path, Some(line))),
            },
        },
    }
}

/// The path of the entry `name` in the directory `base`: the two joined by
/// one slash, unless `base` is empty or brings the slash itself.
pub open spec fn joined(base: Seq<char>, name: Seq<char>) -> Seq<char> {
    if base.len() == 0 {
        name
    } else if base.last() == '/' {
        base + name
    } else {
        base + seq!['/'] + name
    }
}

/// The path of the entry `name` in the directory `base`.
fn join(base: &str, name: &str) -> (path: String)
    ensures
        path@ == joined(base@, name@),
{
    let len: usize = base.unicode_len();
    let mut path = String::from_str(base);
    if len > 0 && base.get_char(len - 1) != '/' {
        proof {
            reveal_strlit("/");
        }
        path.append("/");
        assert(path@ =~= base@ + seq!['/']);
    }
    path.append(name);
    assert(path@ =~= joined(base@, name@));
    path
}

/// A write that the caller is to carry out: the whole of `contents` goes to
/// the file at `path`.
#[derive(Debug)]
pub struct FileWrite {
    pub path: String,
    pub contents: String,
}

/// A `FileWrite` with its texts as sequences of characters.
pub struct FileWriteView {
    pub path: Seq<char>,
    pub contents: Seq<char>,
}

impl View for FileWrite {
    type V = FileWriteView;

    open spec fn view(&self) -> FileWriteView {
        FileWriteView { path: self.path@, contents: self.contents@ }
    }
}

/// One sensor group of a card: the files of its temperature sensor and of
/// its fan, and the range of the fan.
#[derive(Debug)]
pub struct Hwmon {
    path_temperature: String,
    path_pwm_enable: String,
    path_pwm: String,
    pwm_min: Pwm,
    pwm_max: Pwm,
}

/// A `Hwmon` with its paths as sequences of characters.
pub struct HwmonView {
    pub path_temperature: Seq<char>,
    pub path_pwm_enable: Seq<char>,
    pub path_pwm: Seq<char>,
    pub pwm_min: Pwm,
    pub pwm_max: Pwm,
}

impl View for Hwmon {
    type V = HwmonView;

    closed spec fn view(&self) -> HwmonView {
        HwmonView {
            path_temperature: self.path_temperature@,
            path_pwm_enable: self.path_pwm_enable@,
            path_pwm: self.path_pwm@,
            pwm_min: self.pwm_min,
            pwm_max: self.pwm_max,
        }
    }
}

impl HwmonView {
    /// The sensor group in the directory `hwmon_path`, given what was read
    /// from the files of its least and of its greatest fan value. The least
    /// value is looked at first: what is wrong with it is reported whatever
    /// the other file holds.
    pub open spec fn opened(
        hwmon_path: Seq<char>,
        pwm_min: FileReadView,
        pwm_max: FileReadView,
    ) -> Result<HwmonView, GpuErrorView> {
        match value_read(joined(hwmon_path, "pwm1_min"@), pwm_min) {
            Err(error) => Err(error),
            Ok(min) => match value_read(joined(hwmon_path, "pwm1_max"@), pwm_max) {
                Err(error) => Err(error),
                Ok(max) => Ok(
                    HwmonView {
                        path_temperature: joined(hwmon_path, "temp1_input"@),
                        path_pwm_enable: joined(hwmon_path, "pwm1_enable"@),
                        path_pwm: joined(hwmon_path, "pwm1"@),
                        pwm_min: Pwm(min),
                        pwm_max: Pwm(max),
                    },
                ),
            },
        }
    }

    /// The temperature that a read of the temperature file yields.
    pub open spec fn temperature_read(self, read: FileReadView) -> Result<
        Temperature,
        GpuErrorView,
    > {
        match value_read(self.path_temperature, read) {
            Ok(raw) => Ok(Temperature(raw)),
            Err(error) => Err(error),
        }
    }

    /// The write that hands the fan to `mode`: `1` for manual control, `2`
    /// for the card's own, to the file that enables the PWM.
    pub open spec fn mode_write(self, mode: PwmMode) -> FileWriteView {
        FileWriteView {
            path: self.path_pwm_enable,
            contents: match mode {
                PwmMode::Automatic => "2"@,
                PwmMode::Manual => "1"@,
            },
        }
    }

    /// The write that sets the fan to `value`: its decimal text and a line
    /// feed, to the PWM file.
    pub open spec fn pwm_write(self, value: Pwm) -> FileWriteView {
        FileWriteView { path: self.path_pwm, contents: decimal_of(value.0 as int) + seq!['\n'] }
    }
}

/// What the caller found of one sensor group: the path of its directory,
/// and what it read from the two files of `Hwmon::bound_paths`.
#[derive(Debug)]
pub struct GroupFiles {
    pub path: String,
    pub pwm_min: FileRead,
    pub pwm_max: FileRead,
}

/// A `GroupFiles` with its texts as sequences of characters.
pub struct GroupFilesView {
    pub path: Seq<char>,
    pub pwm_min: FileReadView,
    pub pwm_max: FileReadView,
}

impl View for GroupFiles {
    type V = GroupFilesView;

    open spec fn view(&self) -> GroupFilesView {
        GroupFilesView {
            path: self.path@,
            pwm_min: self.pwm_min@,
            pwm_max: self.pwm_max@,
        }
    }
}

/// One entry of a listing of sensor groups: what was found of the group, or
/// the error that kept the caller from looking at it.
pub open spec fn entry_view(entry: Result<GroupFiles, std::io::Error>) -> Result<
    GroupFilesView,
    std::io::Error,
> {
    match entry {
        Ok(files) => Ok(files@),
        Err(cause) => Err(cause),
    }
}

/// The entries of a listing, each by its view.
pub open spec fn entry_views(entries: Seq<Result<GroupFiles, std::io::Error>>) -> Seq<
    Result<GroupFilesView, std::io::Error>,
> {
    entries.map_values(|entry: Result<GroupFiles, std::io::Error>| entry_view(entry))
}

/// A listing of sensor groups, or the error that kept the caller from
/// listing them.
pub open spec fn listing_view(
    listing: Result<Vec<Result<GroupFiles, std::io::Error>>, std::io::Error>,
) -> Result<Seq<Result<GroupFilesView, std::io::Error>>, std::io::Error> {
    match listing {
        Ok(entries) => Ok(entry_views(entries@)),
        Err(cause) => Err(cause),
    }
}

/// Sensor groups, each by its view.
pub open spec fn hwmon_views(hwmons: Seq<Hwmon>) -> Seq<HwmonView> {
    hwmons.map_values(|hwmon: Hwmon| hwmon@)
}

/// The sensor groups that the entries of a listing open, in the order of
/// the listing. The first entry that could not be looked at, or that does
/// not open, ends the search with its error.
pub open spec fn groups_opened(entries: Seq<Result<GroupFilesView, std::io::Error>>) -> Result<
    Seq<HwmonView>,
    GpuErrorView,
>
    decreases entries.len(),
{
    if entries.len() == 0 {
        Ok(Seq::empty())
    } else {
        match groups_opened(entries.drop_last()) {
            Err(error) => Err(error),
            Ok(found) => match entries.last() {
                Err(cause) => Err(GpuErrorView::Io(cause)),
                Ok(files) => match HwmonView::opened(files.path, files.pwm_min, files.pwm_max) {
                    Err(error) => Err(error),
                    Ok(hwmon) => Ok(found.push(hwmon)),
                },
            },
        }
    }
}

/// The sensor groups of a device, given the listing of its sensor groups.
/// A listing that failed is an IO error.
pub open spec fn device_opened(
    listing: Result<Seq<Result<GroupFilesView, std::io::Error>>, std::io::Error>,
) -> Result<Seq<HwmonView>, GpuErrorView> {
    match listing {
        Err(cause) => Err(GpuErrorView::Io(cause)),
        Ok(entries) => groups_opened(entries),
    }
}

/// An error among the first entries of a listing is the error of the whole
/// listing, whatever follows.
pub proof fn lemma_first_failure_stays(
    first: Seq<Result<GroupFilesView, std::io::Error>>,
    rest: Seq<Result<GroupFilesView, std::io::Error>>,
)
    ensures
        groups_opened(first) is Err ==> groups_opened(first + rest) == groups_opened(first),
    decreases rest.len(),
{
    if rest.len() == 0 {
        assert(first + rest =~= first);
    } else {
        assert((first + rest).drop_last() =~= first + rest.drop_last());
        lemma_first_failure_stays(first, rest.drop_last());
    }
}

/// What is written to set the fan is read back as the value that was set:
/// a file that holds the text of `pwm_write` yields the raw value.
pub proof fn lemma_pwm_write_reads_back(device: HwmonView, value: Pwm, path: Seq<char>)
    ensures
        value_read(path, FileReadView::Text(device.pwm_write(value).contents)) == Ok::<
            i32,
            GpuErrorView,
        >(value.0),
{
    lemma_written_number_reads_back(value.0, Seq::<char>::empty());
    assert(decimal_of(value.0 as int) + seq!['\n'] + Seq::<char>::empty() =~= decimal_of(
        value.0 as int,
    ) + seq!['\n']);
}

impl Hwmon {
    /// The path of the directory that holds the sensor groups of the device
    /// in the directory `device_path`.
    pub fn groups_path(device_path: &str) -> (path: String)
        ensures
            path@ == joined(device_path@, "hwmon"@),
    {
        join(device_path, "hwmon")
    }

    /// Opens the sensor groups of a device, given the listing of the
    /// directory of `groups_path`: one entry for each directory in it, in
    /// the order in which the caller came upon them.
    pub fn for_device(
        listing: Result<Vec<Result<GroupFiles, std::io::Error>>, std::io::Error>,
    ) -> (opened: Result<Vec<Hwmon>, GpuError>)
        ensures
            match opened {
                Ok(hwmons) => device_opened(listing_view(listing)) == Ok::<
                    Seq<HwmonView>,
                    GpuErrorView,
                >(hwmon_views(hwmons@)),
                Err(error) => device_opened(listing_view(listing)) == Err::<
                    Seq<HwmonView>,
                    GpuErrorView,
                >(error@),
            },
    {
        let entries = match listing {
            Ok(entries) => entries,
            Err(cause) => {
                return Err(GpuError::from(cause));
            },
        };
        let ghost all = entries@;
        let ghost mut done: Seq<Result<GroupFiles, std::io::Error>> = Seq::empty();
        let mut result: Vec<Hwmon> = Vec::new();
        assert(hwmon_views(result@) =~= Seq::<HwmonView>::empty());
        for entry in rest: entries
            invariant
                listing == Ok::<Vec<Result<GroupFiles, std::io::Error>>, std::io::Error>(entries),
                rest.seq() == all,
                all == entries@,
                done == all.take(rest.index() as int),
                groups_opened(entry_views(done)) == Ok::<Seq<HwmonView>, GpuErrorView>(
                    hwmon_views(result@),
                ),
        {
            proof {
                let seen = all.take(rest.index() + 1);
                assert(seen =~= done.push(entry));
                assert(entry_views(seen).drop_last() =~= entry_views(done));
                assert(entry_views(seen).last() == entry_view(entry));
                let after = all.skip(rest.index() + 1);
                assert(entry_views(seen) + entry_views(after) =~= entry_views(all));
                lemma_first_failure_stays(entry_views(seen), entry_views(after));
                done = seen;
            }
            let files = match entry {
                Ok(files) => files,
                Err(cause) => {
                    return Err(GpuError::from(cause));
                },
            };
            let ghost views = hwmon_views(result@);
            let hwmon = match Hwmon::new(files.path.as_str(), files.pwm_min, files.pwm_max) {
                Ok(hwmon) => hwmon,
                Err(error) => {
                    return Err(error);
                },
            };
            result.push(hwmon);
            assert(hwmon_views(result@) =~= views.push(hwmon@));
        }
        assert(done =~= all);
        Ok(result)
    }

    /// The paths of the two files that hold the least and the greatest fan
    /// value of the sensor group in the directory `hwmon_path`, in this
    /// order. `new` wants what was read from them.
    pub fn bound_paths(hwmon_path: &str) -> (paths: (String, String))
        ensures
            paths.0@ == joined(hwmon_path@, "pwm1_min"@),
            paths.1@ == joined(hwmon_path@, "pwm1_max"@),
    {
        (join(hwmon_path, "pwm1_min"), join(hwmon_path, "pwm1_max"))
    }

    /// Opens the sensor group in the directory `hwmon_path` with what was
    /// read from the two files of `bound_paths`. A bound file that is
    /// missing or empty, or whose first line is no number, is a parse error
    /// that names the file; another failure to read it is an IO error.
    pub fn new(
        hwmon_path: &str,
        pwm_min: FileRead,
        pwm_max: FileRead,
    ) -> (opened: Result<Hwmon, GpuError>)
        ensures
            match opened {
                Ok(hwmon) => HwmonView::opened(hwmon_path@, pwm_min@, pwm_max@)
                    == Ok::<HwmonView, GpuErrorView>(hwmon@),
                Err(error) => HwmonView::opened(hwmon_path@, pwm_min@, pwm_max@)
                    == Err::<HwmonView, GpuErrorView>(error@),
            },
    {
        let pwm_min_path = join(hwmon_path, "pwm1_min");
        let pwm_max_path = join(hwmon_path, "pwm1_max");
        let pwm_min_raw = match Self::read_value(pwm_min_path.as_str(), pwm_min) {
            Ok(raw) => raw,
            Err(error) => {
                return Err(error);
            },
        };
        let pwm_max_raw = match Self::read_value(pwm_max_path.as_str(), pwm_max) {
            Ok(raw) => raw,
            Err(error) => {
                return Err(error);
            },
        };
        Ok(
            Hwmon {
                path_temperature: join(hwmon_path, "temp1_input"),
                path_pwm_enable: join(hwmon_path, "pwm1_enable"),
                path_pwm: join(hwmon_path, "pwm1"),
                pwm_min: Pwm(pwm_min_raw),
                pwm_max: Pwm(pwm_max_raw),
            },
        )
    }

    /// The path of the file that holds the temperature.
    pub fn temperature_path(&self) -> (path: &str)
        ensures
            path@ == self@.path_temperature,
    {
        self.path_temperature.as_str()
    }

    /// The temperature, given what was read from the file of
    /// `temperature_path`.
    pub fn get_temperature(&self, read: FileRead) -> (temperature: Result<
        Temperature,
        GpuError,
    >)
        ensures
            match temperature {
                Ok(value) => self@.temperature_read(read@) == Ok::<
                    Temperature,
                    GpuErrorView,
                >(value),
                Err(error) => self@.temperature_read(read@) == Err::<
                    Temperature,
                    GpuErrorView,
                >(error@),
            },
    {
        match Self::read_value(self.path_temperature.as_str(), read) {
            Ok(temp_raw) => Ok(Temperature(temp_raw)),
            Err(error) => Err(error),
        }
    }

    /// The least value that the fan takes.
    pub fn get_pwm_min(&self) -> (min: Pwm)
        ensures
            min == self@.pwm_min,
    {
        self.pwm_min
    }

    /// The greatest value that the fan takes.
    pub fn get_pwm_max(&self) -> (max: Pwm)
        ensures
            max == self@.pwm_max,
    {
        self.pwm_max
    }

    /// The write that hands the fan to `mode`. The sensor group itself stays
    /// as it is.
    pub fn set_pwm_mode(&mut self, mode: PwmMode) -> (write: FileWrite)
        ensures
            write@ == old(self)@.mode_write(mode),
            final(self)@ == old(self)@,
    {
        let value = match mode {
            PwmMode::Automatic => "2",
            PwmMode::Manual => "1",
        };
        FileWrite { path: self.path_pwm_enable.clone(), contents: String::from_str(value) }
    }

    /// The write that sets the fan to `value`. The sensor group itself stays
    /// as it is.
    pub fn set_pwm(&mut self, value: Pwm) -> (write: FileWrite)
        ensures
            write@ == old(self)@.pwm_write(value),
            final(self)@ == old(self)@,
    {
        let mut value_str = write_decimal(value.0);
        proof {
            reveal_strlit("\n");
        }
        value_str.append("\n");
        assert(value_str@ =~= decimal_of(value.0 as int) + seq!['\n']);
        FileWrite { path: self.path_pwm.clone(), contents: value_str }
    }

    /// The number in a file of the sensor group, given the file's path and
    /// what was read from it.
    pub fn read_value(path: &str, read: FileRead) -> (value: Result<
        i32,
        GpuError,
    >)
        ensures
            match value {
                Ok(number) => value_read(path@, read@) == Ok::<i32, GpuErrorView>(number),
                Err(error) => value_read(path@, read@) == Err::<i32, GpuErrorView>(
                    error@,
                ),
            },
    {
        let text = match read {
            FileRead::Text(text) => text,
            FileRead::Missing => {
                return Err(GpuError::Parse(String::from_str(path), None));
            },
            FileRead::Failed(cause) => {
                return Err(GpuError::from(cause));
            },
        };
        let contents = read_first_line(text.as_str());
        match contents {
            None => Err(GpuError::Parse(String::from_str(path), None)),
            Some(line) => match parse_signed(line.as_str()) {
                Some(value) => Ok(value),
                None => Err(GpuError::Parse(String::from_str(path), Some(line))),
            },
        }
    }
}

} // verus!
