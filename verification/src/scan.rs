//! What a scan of the server observes.

use vstd::prelude::*;

verus! {

/// A difference between the server and its registry.
#[derive(Debug)]
pub struct ScanFinding {
    pub severity: String,
    pub code: String,
    pub message: String,
    pub target: Option<String>,
}

/// View of [`ScanFinding`].
#[verifier::ext_equal]
pub struct ScanFindingView {
    pub severity: Seq<char>,
    pub code: Seq<char>,
    pub message: Seq<char>,
    pub target: Option<Seq<char>>,
}

impl DeepView for ScanFinding {
    type V = ScanFindingView;

    open spec fn deep_view(&self) -> ScanFindingView {
        ScanFindingView {
            severity: self.severity.deep_view(),
            code: self.code.deep_view(),
            message: self.message.deep_view(),
            target: self.target.deep_view(),
        }
    }
}

impl Clone for ScanFinding {
    fn clone(&self) -> (r: Self)
        ensures
            r.deep_view() == self.deep_view(),
    {
        ScanFinding {
            severity: self.severity.clone(),
            code: self.code.clone(),
            message: self.message.clone(),
            target: self.target.clone(),
        }
    }
}

/// A listener on the server.
#[derive(Debug)]
pub struct ObservedPort {
    pub protocol: String,
    pub bind: String,
    pub port: u16,
    pub process: Option<String>,
}

/// View of [`ObservedPort`].
#[verifier::ext_equal]
pub struct ObservedPortView {
    pub protocol: Seq<char>,
    pub bind: Seq<char>,
    pub port: u16,
    pub process: Option<Seq<char>>,
}

impl DeepView for ObservedPort {
    type V = ObservedPortView;

    open spec fn deep_view(&self) -> ObservedPortView {
        ObservedPortView {
            protocol: self.protocol.deep_view(),
            bind: self.bind.deep_view(),
            port: self.port,
            process: self.process.deep_view(),
        }
    }
}

impl Clone for ObservedPort {
    fn clone(&self) -> (r: Self)
        ensures
            r.deep_view() == self.deep_view(),
    {
        ObservedPort {
            protocol: self.protocol.clone(),
            bind: self.bind.clone(),
            port: self.port,
            process: self.process.clone(),
        }
    }
}

/// A container on the server.
#[derive(Debug)]
pub struct DockerContainer {
    pub names: Option<String>,
    pub image: Option<String>,
    pub status: Option<String>,
    pub ports: Option<String>,
    pub labels: Option<String>,
}

/// View of [`DockerContainer`].
#[verifier::ext_equal]
pub struct DockerContainerView {
    pub names: Option<Seq<char>>,
    pub image: Option<Seq<char>>,
    pub status: Option<Seq<char>>,
    pub ports: Option<Seq<char>>,
    pub labels: Option<Seq<char>>,
}

impl DeepView for DockerContainer {
    type V = DockerContainerView;

    open spec fn deep_view(&self) -> DockerContainerView {
        DockerContainerView {
            names: self.names.deep_view(),
            image: self.image.deep_view(),
            status: self.status.deep_view(),
            ports: self.ports.deep_view(),
            labels: self.labels.deep_view(),
        }
    }
}

impl Clone for DockerContainer {
    fn clone(&self) -> (r: Self)
        ensures
            r.deep_view() == self.deep_view(),
    {
        DockerContainer {
            names: self.names.clone(),
            image: self.image.clone(),
            status: self.status.clone(),
            ports: self.ports.clone(),
            labels: self.labels.clone(),
        }
    }
}

/// A Docker volume on the server.
#[derive(Debug)]
pub struct DockerVolume {
    pub name: Option<String>,
    pub driver: Option<String>,
    pub scope: Option<String>,
}

/// View of [`DockerVolume`].
#[verifier::ext_equal]
pub struct DockerVolumeView {
    pub name: Option<Seq<char>>,
    pub driver: Option<Seq<char>>,
    pub scope: Option<Seq<char>>,
}

impl DeepView for DockerVolume {
    type V = DockerVolumeView;

    open spec fn deep_view(&self) -> DockerVolumeView {
        DockerVolumeView {
            name: self.name.deep_view(),
            driver: self.driver.deep_view(),
            scope: self.scope.deep_view(),
        }
    }
}

impl Clone for DockerVolume {
    fn clone(&self) -> (r: Self)
        ensures
            r.deep_view() == self.deep_view(),
    {
        DockerVolume {
            name: self.name.clone(),
            driver: self.driver.clone(),
            scope: self.scope.clone(),
        }
    }
}

/// A Compose project on the server.
#[derive(Debug)]
pub struct ComposeProject {
    pub name: Option<String>,
    pub status: Option<String>,
    pub config_files: Option<String>,
}

/// View of [`ComposeProject`].
#[verifier::ext_equal]
pub struct ComposeProjectView {
    pub name: Option<Seq<char>>,
    pub status: Option<Seq<char>>,
    pub config_files: Option<Seq<char>>,
}

impl DeepView for ComposeProject {
    type V = ComposeProjectView;

    open spec fn deep_view(&self) -> ComposeProjectView {
        ComposeProjectView {
            name: self.name.deep_view(),
            status: self.status.deep_view(),
            config_files: self.config_files.deep_view(),
        }
    }
}

impl Clone for ComposeProject {
    fn clone(&self) -> (r: Self)
        ensures
            r.deep_view() == self.deep_view(),
    {
        ComposeProject {
            name: self.name.clone(),
            status: self.status.clone(),
            config_files: self.config_files.clone(),
        }
    }
}

/// What Docker reports.
#[derive(Debug)]
pub struct DetectedDocker {
    pub containers: Vec<DockerContainer>,
    pub volumes: Vec<DockerVolume>,
    pub compose_projects: Vec<ComposeProject>,
}

/// View of [`DetectedDocker`].
#[verifier::ext_equal]
pub struct DetectedDockerView {
    pub containers: Seq<DockerContainerView>,
    pub volumes: Seq<DockerVolumeView>,
    pub compose_projects: Seq<ComposeProjectView>,
}

impl DeepView for DetectedDocker {
    type V = DetectedDockerView;

    open spec fn deep_view(&self) -> DetectedDockerView {
        DetectedDockerView {
            containers: self.containers.deep_view(),
            volumes: self.volumes.deep_view(),
            compose_projects: self.compose_projects.deep_view(),
        }
    }
}

impl Clone for DetectedDocker {
    fn clone(&self) -> (r: Self)
        ensures
            r.deep_view() == self.deep_view(),
    {
        DetectedDocker {
            containers: self.containers.clone(),
            volumes: self.volumes.clone(),
            compose_projects: self.compose_projects.clone(),
        }
    }
}

/// What was found on the server.
#[derive(Debug)]
pub struct DetectedState {
    pub ports: Vec<ObservedPort>,
    pub docker: DetectedDocker,
}

/// View of [`DetectedState`].
#[verifier::ext_equal]
pub struct DetectedStateView {
    pub ports: Seq<ObservedPortView>,
    pub docker: DetectedDockerView,
}

impl DeepView for DetectedState {
    type V = DetectedStateView;

    open spec fn deep_view(&self) -> DetectedStateView {
        DetectedStateView {
            ports: self.ports.deep_view(),
            docker: self.docker.deep_view(),
        }
    }
}

impl Clone for DetectedState {
    fn clone(&self) -> (r: Self)
        ensures
            r.deep_view() == self.deep_view(),
    {
        DetectedState {
            ports: self.ports.clone(),
            docker: self.docker.clone(),
        }
    }
}

/// The result of one read-only scan of the server.
#[derive(Debug)]
pub struct ScanReport {
    pub detected: DetectedState,
    pub findings: Vec<ScanFinding>,
    pub limitations: Vec<String>,
}

/// View of [`ScanReport`].
#[verifier::ext_equal]
pub struct ScanReportView {
    pub detected: DetectedStateView,
    pub findings: Seq<ScanFindingView>,
    pub limitations: Seq<Seq<char>>,
}

impl DeepView for ScanReport {
    type V = ScanReportView;

    open spec fn deep_view(&self) -> ScanReportView {
        ScanReportView {
            detected: self.detected.deep_view(),
            findings: self.findings.deep_view(),
            limitations: self.limitations.deep_view(),
        }
    }
}

impl Clone for ScanReport {
    fn clone(&self) -> (r: Self)
        ensures
            r.deep_view() == self.deep_view(),
    {
        ScanReport {
            detected: self.detected.clone(),
            findings: self.findings.clone(),
            limitations: self.limitations.clone(),
        }
    }
}

/// What was read about one Docker volume beyond the scan.
#[derive(Debug)]
pub struct VolumeObservation {
    pub name: String,
    /// Evidence from inspecting the volume and sampling its contents.
    pub evidence: Vec<String>,
    /// The names of the containers that mount the volume.
    pub users: Vec<String>,
}

/// View of [`VolumeObservation`].
#[verifier::ext_equal]
pub struct VolumeObservationView {
    pub name: Seq<char>,
    pub evidence: Seq<Seq<char>>,
    pub users: Seq<Seq<char>>,
}

impl DeepView for VolumeObservation {
    type V = VolumeObservationView;

    open spec fn deep_view(&self) -> VolumeObservationView {
        VolumeObservationView {
            name: self.name.deep_view(),
            evidence: self.evidence.deep_view(),
            users: self.users.deep_view(),
        }
    }
}

impl Clone for VolumeObservation {
    fn clone(&self) -> (r: Self)
        ensures
            r.deep_view() == self.deep_view(),
    {
        VolumeObservation {
            name: self.name.clone(),
            evidence: self.evidence.clone(),
            users: self.users.clone(),
        }
    }
}

/// Everything that was observed on the server at one moment.
#[derive(Debug)]
pub struct Observation {
    pub scan: ScanReport,
    pub volumes: Vec<VolumeObservation>,
    /// The moment, in nanoseconds since the Unix epoch.
    pub now: i128,
}

/// View of [`Observation`].
#[verifier::ext_equal]
pub struct ObservationView {
    pub scan: ScanReportView,
    pub volumes: Seq<VolumeObservationView>,
    pub now: i128,
}

impl DeepView for Observation {
    type V = ObservationView;

    open spec fn deep_view(&self) -> ObservationView {
        ObservationView {
            scan: self.scan.deep_view(),
            volumes: self.volumes.deep_view(),
            now: self.now,
        }
    }
}

impl Clone for Observation {
    fn clone(&self) -> (r: Self)
        ensures
            r.deep_view() == self.deep_view(),
    {
        Observation {
            scan: self.scan.clone(),
            volumes: self.volumes.clone(),
            now: self.now,
        }
    }
}

} // verus!
