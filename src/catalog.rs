use vstd::prelude::*;

use crate::matcher::{
    build_pattern, digits_value, has_version, is_digits, is_name, is_name_char, is_package_id,
    lemma_name_determined, lemma_package_id_matches, matches_with, package_suffix, Pattern,
    Version,
};

verus! {

/// A cloud service whose client library documentation can be looked up.
#[derive(Debug, Clone, Copy, PartialEq, Eq, Structural)]
pub enum Service {
    Amplify,
    APIGateway,
    APIGatewayV2,
    AppFlow,
    AppMesh,
    AppRunner,
    AppSync,
    Athena,
    Batch,
    Bedrock,
    Billing,
    Budgets,
    Chatbot,
    Cloud9,
    CloudFormation,
    CloudFront,
    CloudTrail,
    CloudWatch,
    CodeBuild,
    CodeCatalyst,
    CodeCommit,
    CodeDeploy,
    CodePipeline,
    Comprehend,
    ComprehendMedical,
    ControlTower,
    DataZone,
    DynamoDB,
    EBS,
    EC2,
    ECR,
    ECS,
    EFS,
    EKS,
    ElasticBeanstalk,
    ElasticLoadBalancing,
    ElasticLoadBalancingV2,
    EMR,
    EventBridge,
    EventBridgePipes,
    EventBridgeScheduler,
    Firehose,
    Glue,
    GlueDataBrew,
    GuardDuty,
    IAM,
    IdentityStore,
    IoTGreenGrass,
    IoTGreenGrassV2,
    Lambda,
    QuickSight,
    RAM,
    RDS,
    RedShift,
    RedShiftData,
    RedShiftServerless,
    S3,
    S3Glacier,
    S3Tables,
    SageMaker,
    SecretsManager,
    SES,
    SQS,
    StepFunctions,
    SNS,
    SSO,
    STS,
    UserNotifications,
}

/// Number of services in the catalog.
pub const SERVICE_COUNT: usize = 68;

/// The canonical short name of a service: lowercase and URL-safe, used both in
/// the client package's name and in its documentation address.
pub open spec fn canonical_name(s: Service) -> Seq<char> {
    match s {
        Service::Amplify => "amplify"@,
        Service::APIGateway => "apigateway"@,
        Service::APIGatewayV2 => "apigatewayv2"@,
        Service::AppFlow => "appflow"@,
        Service::AppMesh => "appmesh"@,
        Service::AppRunner => "apprunner"@,
        Service::AppSync => "appsync"@,
        Service::Athena => "athena"@,
        Service::Batch => "batch"@,
        Service::Bedrock => "bedrock"@,
        Service::Billing => "billing"@,
        Service::Budgets => "budgets"@,
        Service::Chatbot => "chatbot"@,
        Service::Cloud9 => "cloud9"@,
        Service::CloudFormation => "cloudformation"@,
        Service::CloudFront => "cloudfront"@,
        Service::CloudTrail => "cloudtrail"@,
        Service::CloudWatch => "cloudwatch"@,
        Service::CodeBuild => "codebuild"@,
        Service::CodeCatalyst => "codecatalyst"@,
        Service::CodeCommit => "codecommit"@,
        Service::CodeDeploy => "codedeploy"@,
        Service::CodePipeline => "codepipeline"@,
        Service::Comprehend => "comprehend"@,
        Service::ComprehendMedical => "comprehendmedical"@,
        Service::ControlTower => "controltower"@,
        Service::DataZone => "datazone"@,
        Service::DynamoDB => "dynamodb"@,
        Service::EBS => "ebs"@,
        Service::EC2 => "ec2"@,
        Service::ECR => "ecr"@,
        Service::ECS => "ecs"@,
        Service::EFS => "efs"@,
        Service::EKS => "eks"@,
        Service::ElasticBeanstalk => "elasticbeanstalk"@,
        Service::ElasticLoadBalancing => "elasticloadbalancing"@,
        Service::ElasticLoadBalancingV2 => "elasticloadbalancingv2"@,
        Service::EMR => "emr"@,
        Service::EventBridge => "eventbridge"@,
        Service::EventBridgePipes => "pipes"@,
        Service::EventBridgeScheduler => "scheduler"@,
        Service::Firehose => "firehose"@,
        Service::Glue => "glue"@,
        Service::GlueDataBrew => "databrew"@,
        Service::GuardDuty => "guardduty"@,
        Service::IAM => "iam"@,
        Service::IdentityStore => "identitystore"@,
        Service::IoTGreenGrass => "greengrass"@,
        Service::IoTGreenGrassV2 => "greengrassv2"@,
        Service::Lambda => "lambda"@,
        Service::QuickSight => "quicksight"@,
        Service::RAM => "ram"@,
        Service::RDS => "rds"@,
        Service::RedShift => "redshift"@,
        Service::RedShiftData => "redshiftdata"@,
        Service::RedShiftServerless => "redshiftserverless"@,
        Service::S3 => "s3"@,
        Service::S3Glacier => "glacier"@,
        Service::S3Tables => "s3tables"@,
        Service::SageMaker => "sagemaker"@,
        Service::SecretsManager => "secretsmanager"@,
        Service::SES => "ses"@,
        Service::SQS => "sqs"@,
        Service::StepFunctions => "sfn"@,
        Service::SNS => "sns"@,
        Service::SSO => "sso"@,
        Service::STS => "sts"@,
        Service::UserNotifications => "notifications"@,
    }
}

/// Every service, in the order in which they are defined.
pub open spec fn all_services() -> Seq<Service> {
    seq![
        Service::Amplify,
        Service::APIGateway,
        Service::APIGatewayV2,
        Service::AppFlow,
        Service::AppMesh,
        Service::AppRunner,
        Service::AppSync,
        Service::Athena,
        Service::Batch,
        Service::Bedrock,
        Service::Billing,
        Service::Budgets,
        Service::Chatbot,
        Service::Cloud9,
        Service::CloudFormation,
        Service::CloudFront,
        Service::CloudTrail,
        Service::CloudWatch,
        Service::CodeBuild,
        Service::CodeCatalyst,
        Service::CodeCommit,
        Service::CodeDeploy,
        Service::CodePipeline,
        Service::Comprehend,
        Service::ComprehendMedical,
        Service::ControlTower,
        Service::DataZone,
        Service::DynamoDB,
        Service::EBS,
        Service::EC2,
        Service::ECR,
        Service::ECS,
        Service::EFS,
        Service::EKS,
        Service::ElasticBeanstalk,
        Service::ElasticLoadBalancing,
        Service::ElasticLoadBalancingV2,
        Service::EMR,
        Service::EventBridge,
        Service::EventBridgePipes,
        Service::EventBridgeScheduler,
        Service::Firehose,
        Service::Glue,
        Service::GlueDataBrew,
        Service::GuardDuty,
        Service::IAM,
        Service::IdentityStore,
        Service::IoTGreenGrass,
        Service::IoTGreenGrassV2,
        Service::Lambda,
        Service::QuickSight,
        Service::RAM,
        Service::RDS,
        Service::RedShift,
        Service::RedShiftData,
        Service::RedShiftServerless,
        Service::S3,
        Service::S3Glacier,
        Service::S3Tables,
        Service::SageMaker,
        Service::SecretsManager,
        Service::SES,
        Service::SQS,
        Service::StepFunctions,
        Service::SNS,
        Service::SSO,
        Service::STS,
        Service::UserNotifications,
    ]
}

impl Service {
    /// The canonical short name of this service.
    pub fn url_expression(&self) -> (r: &'static str)
        ensures
            r@ == canonical_name(*self),
    {
        match self {
            Service::Amplify => "amplify",
            Service::APIGateway => "apigateway",
            Service::APIGatewayV2 => "apigatewayv2",
            Service::AppFlow => "appflow",
            Service::AppMesh => "appmesh",
            Service::AppRunner => "apprunner",
            Service::AppSync => "appsync",
            Service::Athena => "athena",
            Service::Batch => "batch",
            Service::Bedrock => "bedrock",
            Service::Billing => "billing",
            Service::Budgets => "budgets",
            Service::Chatbot => "chatbot",
            Service::Cloud9 => "cloud9",
            Service::CloudFormation => "cloudformation",
            Service::CloudFront => "cloudfront",
            Service::CloudTrail => "cloudtrail",
            Service::CloudWatch => "cloudwatch",
            Service::CodeBuild => "codebuild",
            Service::CodeCatalyst => "codecatalyst",
            Service::CodeCommit => "codecommit",
            Service::CodeDeploy => "codedeploy",
            Service::CodePipeline => "codepipeline",
            Service::Comprehend => "comprehend",
            Service::ComprehendMedical => "comprehendmedical",
            Service::ControlTower => "controltower",
            Service::DataZone => "datazone",
            Service::DynamoDB => "dynamodb",
            Service::EBS => "ebs",
            Service::EC2 => "ec2",
            Service::ECR => "ecr",
            Service::ECS => "ecs",
            Service::EFS => "efs",
            Service::EKS => "eks",
            Service::ElasticBeanstalk => "elasticbeanstalk",
            Service::ElasticLoadBalancing => "elasticloadbalancing",
            Service::ElasticLoadBalancingV2 => "elasticloadbalancingv2",
            Service::EMR => "emr",
            Service::EventBridge => "eventbridge",
            Service::EventBridgePipes => "pipes",
            Service::EventBridgeScheduler => "scheduler",
            Service::Firehose => "firehose",
            Service::Glue => "glue",
            Service::GlueDataBrew => "databrew",
            Service::GuardDuty => "guardduty",
            Service::IAM => "iam",
            Service::IdentityStore => "identitystore",
            Service::IoTGreenGrass => "greengrass",
            Service::IoTGreenGrassV2 => "greengrassv2",
            Service::Lambda => "lambda",
            Service::QuickSight => "quicksight",
            Service::RAM => "ram",
            Service::RDS => "rds",
            Service::RedShift => "redshift",
            Service::RedShiftData => "redshiftdata",
            Service::RedShiftServerless => "redshiftserverless",
            Service::S3 => "s3",
            Service::S3Glacier => "glacier",
            Service::S3Tables => "s3tables",
            Service::SageMaker => "sagemaker",
            Service::SecretsManager => "secretsmanager",
            Service::SES => "ses",
            Service::SQS => "sqs",
            Service::StepFunctions => "sfn",
            Service::SNS => "sns",
            Service::SSO => "sso",
            Service::STS => "sts",
            Service::UserNotifications => "notifications",
        }
    }
}

impl Service {
    /// The pattern that recognises the identifiers of this service's client package.
    pub fn package_id_pattern(&self) -> (r: Pattern)
        ensures
            r@ == canonical_name(*self),
    {
        build_pattern(self.url_expression())
    }
}

/// No two services of the catalog share a canonical name.
pub proof fn lemma_canonical_name_injective(a: Service, b: Service)
    ensures
        canonical_name(a) == canonical_name(b) ==> a == b,
{
    reveal_strlit("amplify");
    reveal_strlit("apigateway");
    reveal_strlit("apigatewayv2");
    reveal_strlit("appflow");
    reveal_strlit("appmesh");
    reveal_strlit("apprunner");
    reveal_strlit("appsync");
    reveal_strlit("athena");
    reveal_strlit("batch");
    reveal_strlit("bedrock");
    reveal_strlit("billing");
    reveal_strlit("budgets");
    reveal_strlit("chatbot");
    reveal_strlit("cloud9");
    reveal_strlit("cloudformation");
    reveal_strlit("cloudfront");
    reveal_strlit("cloudtrail");
    reveal_strlit("cloudwatch");
    reveal_strlit("codebuild");
    reveal_strlit("codecatalyst");
    reveal_strlit("codecommit");
    reveal_strlit("codedeploy");
    reveal_strlit("codepipeline");
    reveal_strlit("comprehend");
    reveal_strlit("comprehendmedical");
    reveal_strlit("controltower");
    reveal_strlit("datazone");
    reveal_strlit("dynamodb");
    reveal_strlit("ebs");
    reveal_strlit("ec2");
    reveal_strlit("ecr");
    reveal_strlit("ecs");
    reveal_strlit("efs");
    reveal_strlit("eks");
    reveal_strlit("elasticbeanstalk");
    reveal_strlit("elasticloadbalancing");
    reveal_strlit("elasticloadbalancingv2");
    reveal_strlit("emr");
    reveal_strlit("eventbridge");
    reveal_strlit("pipes");
    reveal_strlit("scheduler");
    reveal_strlit("firehose");
    reveal_strlit("glue");
    reveal_strlit("databrew");
    reveal_strlit("guardduty");
    reveal_strlit("iam");
    reveal_strlit("identitystore");
    reveal_strlit("greengrass");
    reveal_strlit("greengrassv2");
    reveal_strlit("lambda");
    reveal_strlit("quicksight");
    reveal_strlit("ram");
    reveal_strlit("rds");
    reveal_strlit("redshift");
    reveal_strlit("redshiftdata");
    reveal_strlit("redshiftserverless");
    reveal_strlit("s3");
    reveal_strlit("glacier");
    reveal_strlit("s3tables");
    reveal_strlit("sagemaker");
    reveal_strlit("secretsmanager");
    reveal_strlit("ses");
    reveal_strlit("sqs");
    reveal_strlit("sfn");
    reveal_strlit("sns");
    reveal_strlit("sso");
    reveal_strlit("sts");
    reveal_strlit("notifications");
    if canonical_name(a) == canonical_name(b) {
        let n = canonical_name(a);
        let m = canonical_name(b);
        assert(n.len() == m.len());
        assert(0 < n.len() ==> n[0] == m[0]);
        assert(1 < n.len() ==> n[1] == m[1]);
        assert(2 < n.len() ==> n[2] == m[2]);
        assert(3 < n.len() ==> n[3] == m[3]);
        assert(4 < n.len() ==> n[4] == m[4]);
        assert(5 < n.len() ==> n[5] == m[5]);
        assert(6 < n.len() ==> n[6] == m[6]);
        assert(7 < n.len() ==> n[7] == m[7]);
        assert(8 < n.len() ==> n[8] == m[8]);
        assert(9 < n.len() ==> n[9] == m[9]);
        assert(10 < n.len() ==> n[10] == m[10]);
        assert(11 < n.len() ==> n[11] == m[11]);
        assert(12 < n.len() ==> n[12] == m[12]);
        assert(13 < n.len() ==> n[13] == m[13]);
        assert(14 < n.len() ==> n[14] == m[14]);
        assert(15 < n.len() ==> n[15] == m[15]);
        assert(16 < n.len() ==> n[16] == m[16]);
        assert(17 < n.len() ==> n[17] == m[17]);
        assert(18 < n.len() ==> n[18] == m[18]);
        assert(19 < n.len() ==> n[19] == m[19]);
        assert(20 < n.len() ==> n[20] == m[20]);
        assert(21 < n.len() ==> n[21] == m[21]);
    }
}

/// Every canonical name is a non-empty run of lowercase letters and digits.
pub proof fn lemma_canonical_name_is_name(s: Service)
    ensures
        is_name(canonical_name(s)),
{
    reveal_strlit("amplify");
    reveal_strlit("apigateway");
    reveal_strlit("apigatewayv2");
    reveal_strlit("appflow");
    reveal_strlit("appmesh");
    reveal_strlit("apprunner");
    reveal_strlit("appsync");
    reveal_strlit("athena");
    reveal_strlit("batch");
    reveal_strlit("bedrock");
    reveal_strlit("billing");
    reveal_strlit("budgets");
    reveal_strlit("chatbot");
    reveal_strlit("cloud9");
    reveal_strlit("cloudformation");
    reveal_strlit("cloudfront");
    reveal_strlit("cloudtrail");
    reveal_strlit("cloudwatch");
    reveal_strlit("codebuild");
    reveal_strlit("codecatalyst");
    reveal_strlit("codecommit");
    reveal_strlit("codedeploy");
    reveal_strlit("codepipeline");
    reveal_strlit("comprehend");
    reveal_strlit("comprehendmedical");
    reveal_strlit("controltower");
    reveal_strlit("datazone");
    reveal_strlit("dynamodb");
    reveal_strlit("ebs");
    reveal_strlit("ec2");
    reveal_strlit("ecr");
    reveal_strlit("ecs");
    reveal_strlit("efs");
    reveal_strlit("eks");
    reveal_strlit("elasticbeanstalk");
    reveal_strlit("elasticloadbalancing");
    reveal_strlit("elasticloadbalancingv2");
    reveal_strlit("emr");
    reveal_strlit("eventbridge");
    reveal_strlit("pipes");
    reveal_strlit("scheduler");
    reveal_strlit("firehose");
    reveal_strlit("glue");
    reveal_strlit("databrew");
    reveal_strlit("guardduty");
    reveal_strlit("iam");
    reveal_strlit("identitystore");
    reveal_strlit("greengrass");
    reveal_strlit("greengrassv2");
    reveal_strlit("lambda");
    reveal_strlit("quicksight");
    reveal_strlit("ram");
    reveal_strlit("rds");
    reveal_strlit("redshift");
    reveal_strlit("redshiftdata");
    reveal_strlit("redshiftserverless");
    reveal_strlit("s3");
    reveal_strlit("glacier");
    reveal_strlit("s3tables");
    reveal_strlit("sagemaker");
    reveal_strlit("secretsmanager");
    reveal_strlit("ses");
    reveal_strlit("sqs");
    reveal_strlit("sfn");
    reveal_strlit("sns");
    reveal_strlit("sso");
    reveal_strlit("sts");
    reveal_strlit("notifications");
    let n = canonical_name(s);
    assert forall|i: int| 0 <= i < n.len() implies is_name_char(#[trigger] n[i]) by {
        assert(i == 0 || i == 1 || i == 2 || i == 3 || i == 4 || i == 5 || i == 6 || i == 7 || i == 8 || i == 9 || i == 10 || i == 11 || i == 12 || i == 13 || i == 14 || i == 15 || i == 16 || i == 17 || i == 18 || i == 19 || i == 20 || i == 21);
    }
}

/// Where a service stands in the catalog.
pub open spec fn service_index(s: Service) -> int {
    match s {
        Service::Amplify => 0,
        Service::APIGateway => 1,
        Service::APIGatewayV2 => 2,
        Service::AppFlow => 3,
        Service::AppMesh => 4,
        Service::AppRunner => 5,
        Service::AppSync => 6,
        Service::Athena => 7,
        Service::Batch => 8,
        Service::Bedrock => 9,
        Service::Billing => 10,
        Service::Budgets => 11,
        Service::Chatbot => 12,
        Service::Cloud9 => 13,
        Service::CloudFormation => 14,
        Service::CloudFront => 15,
        Service::CloudTrail => 16,
        Service::CloudWatch => 17,
        Service::CodeBuild => 18,
        Service::CodeCatalyst => 19,
        Service::CodeCommit => 20,
        Service::CodeDeploy => 21,
        Service::CodePipeline => 22,
        Service::Comprehend => 23,
        Service::ComprehendMedical => 24,
        Service::ControlTower => 25,
        Service::DataZone => 26,
        Service::DynamoDB => 27,
        Service::EBS => 28,
        Service::EC2 => 29,
        Service::ECR => 30,
        Service::ECS => 31,
        Service::EFS => 32,
        Service::EKS => 33,
        Service::ElasticBeanstalk => 34,
        Service::ElasticLoadBalancing => 35,
        Service::ElasticLoadBalancingV2 => 36,
        Service::EMR => 37,
        Service::EventBridge => 38,
        Service::EventBridgePipes => 39,
        Service::EventBridgeScheduler => 40,
        Service::Firehose => 41,
        Service::Glue => 42,
        Service::GlueDataBrew => 43,
        Service::GuardDuty => 44,
        Service::IAM => 45,
        Service::IdentityStore => 46,
        Service::IoTGreenGrass => 47,
        Service::IoTGreenGrassV2 => 48,
        Service::Lambda => 49,
        Service::QuickSight => 50,
        Service::RAM => 51,
        Service::RDS => 52,
        Service::RedShift => 53,
        Service::RedShiftData => 54,
        Service::RedShiftServerless => 55,
        Service::S3 => 56,
        Service::S3Glacier => 57,
        Service::S3Tables => 58,
        Service::SageMaker => 59,
        Service::SecretsManager => 60,
        Service::SES => 61,
        Service::SQS => 62,
        Service::StepFunctions => 63,
        Service::SNS => 64,
        Service::SSO => 65,
        Service::STS => 66,
        Service::UserNotifications => 67,
    }
}

/// The catalog lists every service once, at its own index.
pub proof fn lemma_all_services_complete(s: Service)
    ensures
        all_services().len() == SERVICE_COUNT,
        0 <= service_index(s) < SERVICE_COUNT,
        all_services()[service_index(s)] == s,
        forall|i: int| 0 <= i < SERVICE_COUNT ==> service_index(#[trigger] all_services()[i]) == i,
{
    assert(all_services().len() == SERVICE_COUNT);
    assert forall|i: int| 0 <= i < SERVICE_COUNT implies service_index(#[trigger] all_services()[i]) == i by {
        assert(i == 0 || i == 1 || i == 2 || i == 3 || i == 4 || i == 5 || i == 6 || i == 7 || i == 8 || i == 9 || i == 10 || i == 11 || i == 12 || i == 13 || i == 14 || i == 15 || i == 16 || i == 17 || i == 18 || i == 19 || i == 20 || i == 21 || i == 22 || i == 23 || i == 24 || i == 25 || i == 26 || i == 27 || i == 28 || i == 29 || i == 30 || i == 31 || i == 32 || i == 33 || i == 34 || i == 35 || i == 36 || i == 37 || i == 38 || i == 39 || i == 40 || i == 41 || i == 42 || i == 43 || i == 44 || i == 45 || i == 46 || i == 47 || i == 48 || i == 49 || i == 50 || i == 51 || i == 52 || i == 53 || i == 54 || i == 55 || i == 56 || i == 57 || i == 58 || i == 59 || i == 60 || i == 61 || i == 62 || i == 63 || i == 64 || i == 65 || i == 66 || i == 67);
    }
}

/// Every service, in the order in which they are defined.
pub fn list_services() -> (r: Vec<Service>)
    ensures
        r@ == all_services(),
{
    let r = vec![Service::Amplify, Service::APIGateway, Service::APIGatewayV2, Service::AppFlow, Service::AppMesh, Service::AppRunner, Service::AppSync, Service::Athena, Service::Batch, Service::Bedrock, Service::Billing, Service::Budgets, Service::Chatbot, Service::Cloud9, Service::CloudFormation, Service::CloudFront, Service::CloudTrail, Service::CloudWatch, Service::CodeBuild, Service::CodeCatalyst, Service::CodeCommit, Service::CodeDeploy, Service::CodePipeline, Service::Comprehend, Service::ComprehendMedical, Service::ControlTower, Service::DataZone, Service::DynamoDB, Service::EBS, Service::EC2, Service::ECR, Service::ECS, Service::EFS, Service::EKS, Service::ElasticBeanstalk, Service::ElasticLoadBalancing, Service::ElasticLoadBalancingV2, Service::EMR, Service::EventBridge, Service::EventBridgePipes, Service::EventBridgeScheduler, Service::Firehose, Service::Glue, Service::GlueDataBrew, Service::GuardDuty, Service::IAM, Service::IdentityStore, Service::IoTGreenGrass, Service::IoTGreenGrassV2, Service::Lambda, Service::QuickSight, Service::RAM, Service::RDS, Service::RedShift, Service::RedShiftData, Service::RedShiftServerless, Service::S3, Service::S3Glacier, Service::S3Tables, Service::SageMaker, Service::SecretsManager, Service::SES, Service::SQS, Service::StepFunctions, Service::SNS, Service::SSO, Service::STS, Service::UserNotifications];
    assert(r@ =~= all_services());
    r
}

/// The pattern of every service matches that service's own package identifier
/// `aws-sdk-<name>@<major>.<minor>.<patch>` and reads back the numbers written.
pub proof fn lemma_service_package_id_matches(
    s: Service,
    major: Seq<char>,
    minor: Seq<char>,
    patch: Seq<char>,
)
    requires
        is_digits(major),
        is_digits(minor),
        is_digits(patch),
        digits_value(major) <= u64::MAX,
        digits_value(minor) <= u64::MAX,
        digits_value(patch) <= u64::MAX,
    ensures
        forall|v: Version|
            has_version(
                package_suffix(canonical_name(s), major, minor, patch),
                canonical_name(s),
                v,
            ) <==> v == (Version {
                major: digits_value(major) as u64,
                minor: digits_value(minor) as u64,
                patch: digits_value(patch) as u64,
            }),
{
    lemma_package_id_matches(canonical_name(s), major, minor, patch);
}

/// The pattern of one service never matches the package identifier of another,
/// even where one canonical name begins the other (`s3`, `s3tables`).
pub proof fn lemma_other_service_never_matches(
    a: Service,
    b: Service,
    major: Seq<char>,
    minor: Seq<char>,
    patch: Seq<char>,
)
    requires
        a != b,
        is_digits(major),
        is_digits(minor),
        is_digits(patch),
    ensures
        !is_package_id(package_suffix(canonical_name(b), major, minor, patch), canonical_name(a)),
{
    let id = package_suffix(canonical_name(b), major, minor, patch);
    assert(id == Seq::<char>::empty() + id);
    assert(matches_with(id, canonical_name(b), major, minor, patch));
    if is_package_id(id, canonical_name(a)) {
        lemma_canonical_name_is_name(a);
        lemma_canonical_name_is_name(b);
        lemma_name_determined(id, canonical_name(a), canonical_name(b));
        lemma_canonical_name_injective(a, b);
    }
}

} // verus!
